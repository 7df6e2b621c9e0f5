//! Where the shell stands: the path from the root to the current node, and the profile
//! and file system it works with.
use vstd::prelude::*;

use crate::application::runtime::{
    ensure_writable, spec_is_read_only, ResolvedProfile, RuntimeContext,
};
use crate::application::vfs::{
    duplicate_handles, handles_view, NodeHandle, NodeHandleView, VirtualFileSystem,
};
use crate::cli::args::GlobalArgs;
use crate::domain::{PageRef, PageRefView};
use crate::error::{ConfluenceCliError, Result};
use crate::text::{
    chars_of, copy_str, spec_join, spec_split_nonempty, split_nonempty, string_of,
    string_of_range, strings_view,
};

verus! {

/// A path from the root: the root first, and no other node is the root.
pub open spec fn spec_lineage_wf(l: Seq<NodeHandleView>) -> bool {
    &&& l.len() >= 1
    &&& l[0] is Root
    &&& forall|i: int| 1 <= i < l.len() ==> !(#[trigger] l[i] is Root)
}

/// The name a node has in a displayed path.
pub open spec fn spec_segment(h: NodeHandleView) -> Seq<char> {
    match h {
        NodeHandleView::Space(s) => s.key,
        NodeHandleView::Page(p) => p.title,
        NodeHandleView::Root => Seq::empty(),
    }
}

/// A path as the shell displays it: `/` for the root, else `/` followed by the names
/// below the root joined with `/`.
pub open spec fn spec_render_lineage(l: Seq<NodeHandleView>) -> Seq<char> {
    if l.len() <= 1 {
        "/"@
    } else {
        "/"@ + spec_join(l.skip(1).map_values(|h: NodeHandleView| spec_segment(h)), "/"@)
    }
}

/// The path after stepping into each of `segs` from `lineage`: `.` stays, `..` goes up
/// unless at the root, and a name goes into the child the file system opens under it.
/// `r` is a possible outcome: the path reached, or the first error the file system gave.
pub open spec fn spec_walk<V: VirtualFileSystem>(
    vfs: V,
    lineage: Seq<NodeHandleView>,
    segs: Seq<Seq<char>>,
    r: Result<Seq<NodeHandleView>>,
) -> bool
    decreases segs.len(),
{
    if segs.len() == 0 {
        r == Ok::<Seq<NodeHandleView>, ConfluenceCliError>(lineage)
    } else if segs[0] == "."@ {
        spec_walk(vfs, lineage, segs.drop_first(), r)
    } else if segs[0] == ".."@ {
        spec_walk(
            vfs,
            if lineage.len() > 1 {
                lineage.drop_last()
            } else {
                lineage
            },
            segs.drop_first(),
            r,
        )
    } else {
        ||| exists|c: NodeHandle|
            #[trigger] vfs.open_child_post(lineage.last(), segs[0], Ok(c)) && spec_walk(
                vfs,
                lineage.push(c@),
                segs.drop_first(),
                r,
            )
        ||| exists|e: ConfluenceCliError|
            #[trigger] vfs.open_child_post(lineage.last(), segs[0], Err(e)) && r == Err::<
                Seq<NodeHandleView>,
                ConfluenceCliError,
            >(e)
    }
}

/// A possible outcome of resolving `path` from `lineage`: an absolute path starts from
/// the root, a relative one from `lineage`; the path is split at `/` and empty pieces
/// are skipped.
pub open spec fn spec_resolve<V: VirtualFileSystem>(
    vfs: V,
    lineage: Seq<NodeHandleView>,
    path: Seq<char>,
    r: Result<Seq<NodeHandleView>>,
) -> bool {
    let start = if path.len() > 0 && path[0] == '/' {
        seq![NodeHandleView::Root]
    } else {
        lineage
    };
    spec_walk(vfs, start, spec_split_nonempty(path, '/'), r)
}

/// A well-formed path holds the root only at its start.
pub proof fn lemma_wf_no_inner_root(l: Seq<NodeHandle>)
    requires
        spec_lineage_wf(handles_view(l)),
    ensures
        forall|i: int| 1 <= i < l.len() ==> !(#[trigger] l[i] is Root),
{
    assert forall|i: int| 1 <= i < l.len() implies !(#[trigger] l[i] is Root) by {
        assert(handles_view(l)[i] == l[i]@);
    }
}

/// The view of a resolved path.
pub open spec fn lineage_result(r: Result<Vec<NodeHandle>>) -> Result<Seq<NodeHandleView>> {
    match r {
        Ok(l) => Ok(handles_view(l@)),
        Err(e) => Err(e),
    }
}

/// The text `s` without the `/` characters that end it.
pub open spec fn spec_trim_end_slashes(s: Seq<char>) -> Seq<char>
    decreases s.len(),
{
    if s.len() > 0 && s.last() == '/' {
        spec_trim_end_slashes(s.drop_last())
    } else {
        s
    }
}

/// The index of the last `/` in `s`, if any.
pub open spec fn spec_last_slash(s: Seq<char>) -> Option<int>
    decreases s.len(),
{
    if s.len() == 0 {
        None
    } else if s.last() == '/' {
        Some(s.len() - 1)
    } else {
        spec_last_slash(s.drop_last())
    }
}

/// How a path to be created splits into the path of its parent and its own name:
/// `None` when nothing is left after trailing slashes are dropped. Without a `/` the
/// parent is `.`.
pub open spec fn spec_split_parent(path: Seq<char>) -> Option<(Seq<char>, Seq<char>)> {
    let t = spec_trim_end_slashes(path);
    if t.len() == 0 {
        None
    } else {
        match spec_last_slash(t) {
            Some(k) => Some((t.take(k), t.skip(k + 1))),
            None => Some(("."@, t)),
        }
    }
}

/// The prompt the shell prints: the profile in brackets when one was chosen, then the
/// current path.
pub open spec fn spec_prompt(profile: Option<Seq<char>>, cwd: Seq<char>) -> Seq<char> {
    match profile {
        Some(p) => "confluence("@ + p + ")"@ + cwd + "> "@,
        None => "confluence"@ + cwd + "> "@,
    }
}

/// The views of a parent path and a leaf name.
pub open spec fn created_view(r: Result<(Vec<NodeHandle>, String)>) -> Result<(Seq<NodeHandleView>, Seq<char>)> {
    match r {
        Ok((l, name)) => Ok((handles_view(l@), name@)),
        Err(e) => Err(e),
    }
}

/// What splitting a path to be created gives: the resolved path of its parent and the
/// new leaf name.
pub open spec fn spec_parent_for_create<V: VirtualFileSystem>(
    vfs: V,
    lineage: Seq<NodeHandleView>,
    path: Seq<char>,
    r: Result<(Seq<NodeHandleView>, Seq<char>)>,
) -> bool {
    match spec_split_parent(path) {
        None => r matches Err(ConfluenceCliError::Config(m)) && m@ == "target path must include a leaf name"@,
        Some((parent, leaf)) => if leaf == "."@ || leaf == ".."@ {
            r matches Err(ConfluenceCliError::Config(m)) && m@ == "target leaf name must be a normal path segment"@
        } else {
            exists|res: Result<Seq<NodeHandleView>>|
                #[trigger] spec_resolve(vfs, lineage, parent, res) && match res {
                    Err(e) => r == Err::<(Seq<NodeHandleView>, Seq<char>), ConfluenceCliError>(e),
                    Ok(l) => r == Ok::<(Seq<NodeHandleView>, Seq<char>), ConfluenceCliError>((l, leaf)),
                }
        },
    }
}

/// The shell's state.
pub struct ShellState<V: VirtualFileSystem> {
    global: GlobalArgs,
    runtime: RuntimeContext,
    vfs: V,
    lineage: Vec<NodeHandle>,
}

/// What `cd` to `target` does to the current path `lineage`, ending at `after` with
/// result `r`: `/` goes to the root, `..` one level up (staying at the root), anything
/// else is resolved as a path, the current path kept when that fails.
pub open spec fn spec_change_directory<V: VirtualFileSystem>(
    vfs: V,
    lineage: Seq<NodeHandleView>,
    target: Seq<char>,
    r: Result<()>,
    after: Seq<NodeHandleView>,
) -> bool {
    if target == "/"@ {
        r is Ok && after == seq![NodeHandleView::Root]
    } else if target == ".."@ {
        r is Ok && after == (if lineage.len() > 1 {
            lineage.drop_last()
        } else {
            lineage
        })
    } else {
        spec_resolve(
            vfs,
            lineage,
            target,
            match r {
                Ok(_) => Ok(after),
                Err(e) => Err(e),
            },
        ) && (r is Err ==> after == lineage)
    }
}

/// The unit result of a stage's result.
pub open spec fn unit_result<T>(r: Result<T>) -> Result<()> {
    match r {
        Ok(_) => Ok(()),
        Err(e) => Err(e),
    }
}

impl<V: VirtualFileSystem> ShellState<V> {
    /// The path from the root to the current node.
    pub closed spec fn lineage(&self) -> Seq<NodeHandleView> {
        handles_view(self.lineage@)
    }

    /// The global options the shell runs with.
    pub closed spec fn global_args(&self) -> GlobalArgs {
        self.global
    }

    /// The resolved runtime.
    pub closed spec fn runtime_ctx(&self) -> RuntimeContext {
        self.runtime
    }

    /// The file system the shell walks.
    pub closed spec fn file_system(&self) -> V {
        self.vfs
    }

    /// The state's invariant: the path is well formed.
    pub open spec fn wf(&self) -> bool {
        spec_lineage_wf(self.lineage())
    }

    /// A shell at the root.
    pub fn new(global: GlobalArgs, runtime: RuntimeContext, vfs: V) -> (r: Self)
        ensures
            r.wf(),
            r.lineage() == seq![NodeHandleView::Root],
            r.global_args() == global,
            r.runtime_ctx() == runtime,
            r.file_system() == vfs,
    {
        let root = vfs.root();
        let mut lineage: Vec<NodeHandle> = Vec::new();
        lineage.push(root);
        let r = ShellState { global, runtime, vfs, lineage };
        assert(r.lineage() == seq![NodeHandleView::Root]);
        r
    }

    /// The prompt: `confluence(<profile>)<path>> ` or `confluence<path>> `.
    pub fn prompt(&self) -> (r: String)
        requires
            self.wf(),
        ensures
            r@ == spec_prompt(
                match self.global_args().profile {
                    Some(p) => Some(p@),
                    None => None,
                },
                spec_render_lineage(self.lineage()),
            ),
    {
        let cwd = self.cwd_display();
        match &self.global.profile {
            Some(profile) => {
                let mut out = copy_str("confluence(");
                out.append(profile.as_str());
                out.append(")");
                out.append(cwd.as_str());
                out.append("> ");
                out
            },
            None => {
                let mut out = copy_str("confluence");
                out.append(cwd.as_str());
                out.append("> ");
                out
            },
        }
    }

    /// The current path as displayed.
    pub fn cwd_display(&self) -> (r: String)
        requires
            self.wf(),
        ensures
            r@ == spec_render_lineage(self.lineage()),
    {
        assert forall|i: int| 1 <= i < self.lineage@.len() implies !(#[trigger] self.lineage@[i] is Root) by {
            assert(self.lineage()[i] == self.lineage@[i]@);
        }
        self.render_lineage(self.lineage.as_slice())
    }

    /// The current node.
    pub fn current(&self) -> (r: &NodeHandle)
        requires
            self.wf(),
        ensures
            r@ == self.lineage().last(),
    {
        let n = self.lineage.len();
        &self.lineage[n - 1]
    }

    /// The file system.
    pub fn vfs(&self) -> (r: &V)
        ensures
            *r == self.file_system(),
    {
        &self.vfs
    }

    /// The global options.
    pub fn global(&self) -> (r: &GlobalArgs)
        ensures
            *r == self.global_args(),
    {
        &self.global
    }

    /// The resolved profile, if one was resolved.
    pub fn resolved_profile(&self) -> (r: Option<&ResolvedProfile>)
        ensures
            match self.runtime_ctx().runtime_config.resolved_profile {
                Some(p) => r == Some(&p),
                None => r is None,
            },
    {
        match &self.runtime.runtime_config.resolved_profile {
            Some(p) => Some(p),
            None => None,
        }
    }

    /// Refuses a mutating command under a read-only profile.
    pub fn ensure_writable(&self) -> (r: Result<()>)
        ensures
            spec_is_read_only(self.runtime_ctx()) ==> (r matches Err(ConfluenceCliError::Config(m))
                && m@ == "active profile is read-only; this command would mutate Confluence"@),
            !spec_is_read_only(self.runtime_ctx()) ==> r is Ok,
    {
        ensure_writable(&self.runtime)
    }

    /// A path rendered for display.
    pub fn render_lineage(&self, lineage: &[NodeHandle]) -> (r: String)
        requires
            forall|i: int| 1 <= i < lineage@.len() ==> !(#[trigger] lineage@[i] is Root),
        ensures
            r@ == spec_render_lineage(handles_view(lineage@)),
    {
        let ghost l = handles_view(lineage@);
        let ghost segs = l.skip(1).map_values(|h: NodeHandleView| spec_segment(h));
        if lineage.len() <= 1 {
            return copy_str("/");
        }
        let mut out = copy_str("/");
        let mut i: usize = 1;
        while i < lineage.len()
            invariant
                1 <= i <= lineage.len(),
                l == handles_view(lineage@),
                segs == l.skip(1).map_values(|h: NodeHandleView| spec_segment(h)),
                out@ == "/"@ + spec_join(segs.take(i - 1), "/"@),
            decreases lineage.len() - i,
        {
            if i > 1 {
                out.append("/");
            }
            match &lineage[i] {
                NodeHandle::Space(space) => out.append(space.key.as_str()),
                NodeHandle::Page(page) => out.append(page.title.as_str()),
                NodeHandle::Root => {},
            }
            proof {
                assert(segs[i - 1] == spec_segment(lineage@[i as int]@));
                let t = segs.take(i as int);
                assert(t.drop_last() == segs.take(i - 1));
                assert(t.last() == segs[i - 1]);
                if i == 1 {
                    assert(t.len() == 1);
                }
            }
            i = i + 1;
        }
        assert(segs.take(lineage.len() - 1) == segs);
        out
    }

    /// Resolves a path from the current node.
    fn resolve_lineage(&self, path: &str) -> (r: Result<Vec<NodeHandle>>)
        requires
            self.wf(),
        ensures
            spec_resolve(self.file_system(), self.lineage(), path@, match r {
                Ok(l) => Ok(handles_view(l@)),
                Err(e) => Err(e),
            }),
            r matches Ok(l) ==> spec_lineage_wf(handles_view(l@)),
    {
        let chars = chars_of(path);
        let mut lineage: Vec<NodeHandle> = if chars.len() > 0 && chars[0] == '/' {
            let mut v: Vec<NodeHandle> = Vec::new();
            v.push(self.vfs.root());
            assert(handles_view(v@) == seq![NodeHandleView::Root]);
            v
        } else {
            duplicate_handles(self.lineage.as_slice())
        };
        let ghost start = handles_view(lineage@);
        assert(start == (if path@.len() > 0 && path@[0] == '/' {
            seq![NodeHandleView::Root]
        } else {
            self.lineage()
        }));
        let segments = split_nonempty(chars.as_slice(), '/');
        let ghost segs = spec_split_nonempty(path@, '/');
        let ghost vfs = self.vfs;
        let mut i: usize = 0;
        assert(segs.skip(0) == segs);
        while i < segments.len()
            invariant
                i <= segments.len(),
                chars@ == path@,
                vfs == self.vfs,
                start == (if path@.len() > 0 && path@[0] == '/' {
                    seq![NodeHandleView::Root]
                } else {
                    self.lineage()
                }),
                segments@.map_values(|l: Vec<char>| l@) == segs,
                segs == spec_split_nonempty(path@, '/'),
                spec_lineage_wf(handles_view(lineage@)),
                forall|r: Result<Seq<NodeHandleView>>|
                    spec_walk(vfs, handles_view(lineage@), segs.skip(i as int), r) ==> spec_walk(
                        vfs,
                        start,
                        segs,
                        r,
                    ),
            decreases segments.len() - i,
        {
            let seg = &segments[i];
            let ghost cur = handles_view(lineage@);
            let ghost rest = segs.skip(i as int);
            assert(rest[0] == seg@);
            assert(rest.drop_first() == segs.skip(i + 1));
            if seg.len() == 1 && seg[0] == '.' {
                proof {
                    reveal_strlit(".");
                    assert(seg@ == "."@);
                }
            } else if seg.len() == 2 && seg[0] == '.' && seg[1] == '.' {
                proof {
                    reveal_strlit("..");
                    reveal_strlit(".");
                    assert(seg@ == ".."@);
                    assert(seg@ != "."@);
                }
                if lineage.len() > 1 {
                    lineage.pop();
                    assert(handles_view(lineage@) == cur.drop_last());
                }
            } else {
                proof {
                    reveal_strlit("..");
                    reveal_strlit(".");
                    if seg@ == "."@ {
                        assert(seg@.len() == 1 && seg@[0] == '.');
                    }
                    if seg@ == ".."@ {
                        assert(seg@.len() == 2 && seg@[0] == '.' && seg@[1] == '.');
                    }
                }
                let n = lineage.len();
                let name = string_of(seg.as_slice());
                let next = self.vfs.open_child(&lineage[n - 1], name.as_str());
                match next {
                    Ok(child) => {
                        let ghost c = child;
                        lineage.push(child);
                        proof {
                            assert(handles_view(lineage@) == cur.push(c@));
                            assert forall|r: Result<Seq<NodeHandleView>>|
                                spec_walk(vfs, handles_view(lineage@), segs.skip(i + 1), r) implies spec_walk(
                                vfs,
                                start,
                                segs,
                                r,
                            ) by {
                                assert(vfs.open_child_post(cur.last(), rest[0], Ok(c)));
                                assert(spec_walk(vfs, cur, rest, r));
                            }
                        }
                    },
                    Err(e) => {
                        proof {
                            let ghost er = Err::<Seq<NodeHandleView>, ConfluenceCliError>(e);
                            assert(vfs.open_child_post(cur.last(), rest[0], Err(e)));
                            assert(spec_walk(vfs, cur, rest, er));
                            assert(spec_walk(vfs, start, segs, er));
                            assert(spec_resolve(self.file_system(), self.lineage(), path@, er));
                        }
                        return Err(e);
                    },
                }
            }
            i = i + 1;
        }
        assert(segs.skip(segments.len() as int).len() == 0);
        Ok(lineage)
    }

    /// The node a listing command reads: the current one, or the one `target` names.
    pub fn resolve_listing_target(&self, target: Option<&str>) -> (r: Result<NodeHandle>)
        requires
            self.wf(),
        ensures
            target is None ==> (r matches Ok(h) && h@ == self.lineage().last()),
            target matches Some(t) ==> (exists|res: Result<Seq<NodeHandleView>>|
                #[trigger] spec_resolve(self.file_system(), self.lineage(), t@, res) && match res {
                    Ok(l) => r matches Ok(h) && h@ == l.last() && spec_lineage_wf(l),
                    Err(e) => r == Err::<NodeHandle, ConfluenceCliError>(e),
                }),
    {
        match target {
            None => Ok(self.current().duplicate()),
            Some(t) => {
                let l = self.resolve_lineage(t)?;
                let n = l.len();
                Ok(l[n - 1].duplicate())
            },
        }
    }

    /// The path a command works on: the current one, or the one `target` names.
    pub fn resolve_target_lineage(&self, target: Option<&str>) -> (r: Result<Vec<NodeHandle>>)
        requires
            self.wf(),
        ensures
            target is None ==> (r matches Ok(l) && handles_view(l@) == self.lineage()),
            target matches Some(t) ==> spec_resolve(self.file_system(), self.lineage(), t@, match r {
                Ok(l) => Ok(handles_view(l@)),
                Err(e) => Err(e),
            }),
            r matches Ok(l) ==> spec_lineage_wf(handles_view(l@)),
    {
        match target {
            None => Ok(duplicate_handles(self.lineage.as_slice())),
            Some(t) => self.resolve_lineage(t),
        }
    }

    /// Changes the current node: `/` goes to the root, `..` one level up (staying at
    /// the root), anything else is resolved as a path.
    pub fn change_directory(&mut self, target: &str) -> (r: Result<()>)
        requires
            old(self).wf(),
        ensures
            final(self).wf(),
            final(self).global_args() == old(self).global_args(),
            final(self).runtime_ctx() == old(self).runtime_ctx(),
            final(self).file_system() == old(self).file_system(),
            target@ == "/"@ ==> r is Ok && final(self).lineage() == seq![NodeHandleView::Root],
            target@ == ".."@ ==> r is Ok && final(self).lineage() == (if old(self).lineage().len()
                > 1 {
                old(self).lineage().drop_last()
            } else {
                old(self).lineage()
            }),
            (target@ != "/"@ && target@ != ".."@) ==> spec_resolve(
                old(self).file_system(),
                old(self).lineage(),
                target@,
                match r {
                    Ok(_) => Ok(final(self).lineage()),
                    Err(e) => Err(e),
                },
            ),
            r is Err ==> final(self).lineage() == old(self).lineage(),
            spec_change_directory(old(self).file_system(), old(self).lineage(), target@, r, final(self).lineage()),
    {
        proof {
            reveal_strlit("/");
            reveal_strlit("..");
        }
        let chars = chars_of(target);
        if chars.len() == 1 && chars[0] == '/' {
            assert(target@ == "/"@);
            self.lineage.truncate(1);
            assert(self.lineage() == seq![NodeHandleView::Root]);
            return Ok(());
        }
        if chars.len() == 2 && chars[0] == '.' && chars[1] == '.' {
            assert(target@ == ".."@);
            if self.lineage.len() > 1 {
                let ghost before = self.lineage();
                self.lineage.pop();
                assert(self.lineage() == before.drop_last());
            }
            return Ok(());
        }
        proof {
            if target@ == "/"@ {
                assert(chars@.len() == 1 && chars@[0] == '/');
            }
            if target@ == ".."@ {
                assert(chars@.len() == 2 && chars@[0] == '.');
            }
        }
        let l = self.resolve_lineage(target)?;
        self.lineage = l;
        Ok(())
    }

    /// Switches to another profile, with the runtime and file system loaded for it, and
    /// returns to the root.
    pub fn use_profile(&mut self, profile: String, runtime: RuntimeContext, vfs: V)
        ensures
            final(self).wf(),
            final(self).lineage() == seq![NodeHandleView::Root],
            final(self).global_args().profile == Some(profile),
            final(self).global_args().config_path == old(self).global_args().config_path,
            final(self).global_args().output == old(self).global_args().output,
            final(self).runtime_ctx() == runtime,
            final(self).file_system() == vfs,
    {
        self.global.profile = Some(profile);
        self.runtime = runtime;
        let root = vfs.root();
        self.vfs = vfs;
        let mut lineage: Vec<NodeHandle> = Vec::new();
        lineage.push(root);
        self.lineage = lineage;
        assert(self.lineage() == seq![NodeHandleView::Root]);
    }

    /// Splits a path to be created into the path of its existing parent and the new
    /// leaf name.
    pub fn resolve_parent_for_create(&self, path: &str) -> (r: Result<(Vec<NodeHandle>, String)>)
        requires
            self.wf(),
        ensures
            match spec_split_parent(path@) {
                None => r matches Err(ConfluenceCliError::Config(m)) && m@
                    == "target path must include a leaf name"@,
                Some((parent, leaf)) => if leaf == "."@ || leaf == ".."@ {
                    r matches Err(ConfluenceCliError::Config(m)) && m@
                        == "target leaf name must be a normal path segment"@
                } else {
                    spec_resolve(self.file_system(), self.lineage(), parent, match r {
                        Ok((l, _)) => Ok(handles_view(l@)),
                        Err(e) => Err(e),
                    }) && (r matches Ok((l, name)) ==> name@ == leaf && spec_lineage_wf(
                        handles_view(l@),
                    ))
                },
            },
            spec_parent_for_create(self.file_system(), self.lineage(), path@, created_view(r)),
    {
        proof {
            reveal_strlit(".");
            reveal_strlit("..");
        }
        let chars = chars_of(path);
        let mut end = chars.len();
        assert(chars@.take(end as int) == chars@);
        while end > 0 && chars[end - 1] == '/'
            invariant
                end <= chars.len(),
                chars@ == path@,
                spec_trim_end_slashes(path@) == spec_trim_end_slashes(chars@.take(end as int)),
            decreases end,
        {
            assert(chars@.take(end as int).drop_last() == chars@.take(end - 1));
            end = end - 1;
        }
        assert(chars@.take(end as int) == spec_trim_end_slashes(path@)) by {
            assert(chars@.take(end as int).len() == 0 || chars@.take(end as int).last() != '/');
        }
        let ghost t = chars@.take(end as int);
        if end == 0 {
            return Err(ConfluenceCliError::Config(copy_str("target path must include a leaf name")));
        }
        let mut k = end;
        assert(t.take(k as int) == t);
        while k > 0 && chars[k - 1] != '/'
            invariant
                k <= end <= chars.len(),
                t == chars@.take(end as int),
                spec_last_slash(t) == spec_last_slash(t.take(k as int)),
            decreases k,
        {
            assert(t.take(k as int).drop_last() == t.take(k - 1));
            k = k - 1;
        }
        let leaf = string_of_range(chars.as_slice(), k, end);
        let parent: String = if k == 0 {
            assert(spec_last_slash(t) is None) by {
                assert(t.take(0).len() == 0);
            }
            copy_str(".")
        } else {
            assert(spec_last_slash(t) == Some(k - 1)) by {
                assert(t.take(k as int).last() == '/');
            }
            assert(t.take(k - 1) == chars@.take(k - 1));
            string_of_range(chars.as_slice(), 0, k - 1)
        };
        assert(leaf@ == t.skip(k as int));
        let leaf_chars = chars_of(leaf.as_str());
        if (leaf_chars.len() == 1 && leaf_chars[0] == '.') || (leaf_chars.len() == 2
            && leaf_chars[0] == '.' && leaf_chars[1] == '.') {
            proof {
                if leaf_chars.len() == 1 {
                    assert(leaf@ == "."@);
                } else {
                    assert(leaf@ == ".."@);
                }
            }
            return Err(ConfluenceCliError::Config(copy_str("target leaf name must be a normal path segment")));
        }
        proof {
            if leaf@ == "."@ {
                assert(leaf_chars@.len() == 1 && leaf_chars@[0] == '.');
            }
            if leaf@ == ".."@ {
                assert(leaf_chars@.len() == 2 && leaf_chars@[0] == '.');
            }
        }
        let res = self.resolve_target_lineage(Some(parent.as_str()));
        let ghost gres = lineage_result(res);
        let ghost gleaf = leaf@;
        assert(spec_resolve(self.file_system(), self.lineage(), parent@, gres));
        assert(!(gleaf == "."@ || gleaf == ".."@));
        let r = match res {
            Ok(l) => Ok((l, leaf)),
            Err(e) => Err(e),
        };
        assert(spec_split_parent(path@) == Some((parent@, gleaf)));
        assert(match gres {
            Err(e) => created_view(r) == Err::<(Seq<NodeHandleView>, Seq<char>), ConfluenceCliError>(e),
            Ok(l) => created_view(r) == Ok::<(Seq<NodeHandleView>, Seq<char>), ConfluenceCliError>((l, gleaf)),
        });
        assert(exists|res: Result<Seq<NodeHandleView>>|
            #[trigger] spec_resolve(self.file_system(), self.lineage(), parent@, res) && match res {
                Err(e) => created_view(r) == Err::<(Seq<NodeHandleView>, Seq<char>), ConfluenceCliError>(e),
                Ok(l) => created_view(r) == Ok::<(Seq<NodeHandleView>, Seq<char>), ConfluenceCliError>((l, gleaf)),
            });
        proof {
            let sp = spec_split_parent(path@);
            assert(sp is Some);
            let (pp, ll) = sp->0;
            assert(pp == parent@);
            assert(ll == gleaf);
            assert(!(ll == "."@ || ll == ".."@));
        }
        assert(spec_parent_for_create(self.file_system(), self.lineage(), path@, created_view(r)));
        r
    }

    /// The page the shell stands on, if it stands on one.
    pub fn current_page_ref(&self) -> (r: Option<PageRef>)
        requires
            self.wf(),
        ensures
            match self.lineage().last() {
                NodeHandleView::Page(p) => r matches Some(pr) && pr@ == PageRefView::Id(p.id),
                _ => r is None,
            },
    {
        self.current().as_page_ref()
    }
}

} // verus!
