//! Listings and node descriptions as the shell prints them.
use vstd::prelude::*;

use crate::application::vfs::{DirEntry, NodeCapability, NodeHandle, NodeHandleView, NodeKind, NodeStat};
use crate::text::{
    copy_str, join, pad_right, spec_decimal, spec_join, spec_pad_right, spec_trim_end,
    strings_view, trim_end_str, u64_to_string,
};

verus! {

/// How a listing is laid out.
#[derive(Debug, Clone, Copy, PartialEq, Eq, Structural)]
pub enum ListingStyle {
    Simple,
    Long,
}

/// The label of a node kind.
pub open spec fn spec_kind_label(kind: NodeKind) -> Seq<char> {
    match kind {
        NodeKind::Root => "root"@,
        NodeKind::Space => "space"@,
        NodeKind::Page => "page"@,
        NodeKind::Folder => "folder"@,
    }
}

/// The label of a capability.
pub open spec fn spec_capability_label(c: NodeCapability) -> Seq<char> {
    match c {
        NodeCapability::Read => "read"@,
        NodeCapability::List => "list"@,
        NodeCapability::Traverse => "traverse"@,
        NodeCapability::Search => "search"@,
        NodeCapability::Create => "create"@,
        NodeCapability::Delete => "delete"@,
        NodeCapability::Move => "move"@,
        NodeCapability::Copy => "copy"@,
    }
}

/// The capabilities' labels joined with commas.
pub open spec fn spec_capabilities_text(caps: Seq<NodeCapability>) -> Seq<char> {
    spec_join(caps.map_values(|c: NodeCapability| spec_capability_label(c)), ","@)
}

/// The name of an entry in a simple listing: spaces and pages with children end in `/`.
pub open spec fn spec_entry_name(e: DirEntry) -> Seq<char> {
    match e.handle@ {
        NodeHandleView::Space(s) => s.key + "/"@,
        NodeHandleView::Page(p) => if e.stat.has_children == Some(true) {
            p.title + "/"@
        } else {
            p.title
        },
        NodeHandleView::Root => "/"@,
    }
}

/// The width of a text in bytes of UTF-8, as `str::len` counts it.
pub open spec fn spec_byte_width(s: Seq<char>) -> int {
    (vstd::utf8::encode_utf8(s).len() as usize) as int
}

/// The greatest byte width among `names` (0 for none).
pub open spec fn spec_max_width(names: Seq<Seq<char>>) -> int
    decreases names.len(),
{
    if names.len() == 0 {
        0
    } else {
        let m = spec_max_width(names.drop_last());
        let w = spec_byte_width(names.last());
        if w > m {
            w
        } else {
            m
        }
    }
}

/// The number of rows that hold `n` names in `columns` columns.
pub open spec fn spec_rows(n: int, columns: int) -> int {
    n / columns + if n % columns != 0 {
        1int
    } else {
        0int
    }
}

/// The cell of the listing at `row` and `col`, names running down the columns: padded
/// to the column width unless it is the last in its row.
pub open spec fn spec_cell(names: Seq<Seq<char>>, cw: int, columns: int, rows: int, row: int, col: int) -> Seq<char> {
    let index = col * rows + row;
    if index >= names.len() {
        Seq::empty()
    } else if col + 1 == columns || index + rows >= names.len() {
        names[index]
    } else {
        spec_pad_right(names[index], cw as nat)
    }
}

/// The first `k` cells of a row, side by side.
pub open spec fn spec_row_raw(names: Seq<Seq<char>>, cw: int, columns: int, rows: int, row: int, k: int) -> Seq<char>
    decreases k,
{
    if k <= 0 {
        Seq::empty()
    } else {
        spec_row_raw(names, cw, columns, rows, row, k - 1) + spec_cell(names, cw, columns, rows, row, k - 1)
    }
}

/// Names laid out in columns over a width of 100: one name per line when the widest
/// name with two spaces takes half the width or more.
pub open spec fn spec_listing_columns(names: Seq<Seq<char>>) -> Seq<char> {
    if names.len() == 0 {
        Seq::empty()
    } else if spec_max_width(names) + 2 >= 50 {
        spec_join(names, "\n"@) + "\n"@
    } else {
        let cw = spec_max_width(names) + 2;
        let columns = 100int / cw;
        let rows = spec_rows(names.len() as int, columns);
        spec_join(
            Seq::new(rows as nat, |r: int| spec_trim_end(spec_row_raw(names, cw, columns, rows, r, columns))),
            "\n"@,
        ) + "\n"@
    }
}

/// One line of a long listing: kind, capabilities, id and name in fixed columns.
pub open spec fn spec_entry_long(e: DirEntry) -> Seq<char> {
    let prefix = spec_pad_right(spec_kind_label(e.stat.kind), 5) + " "@ + spec_pad_right(
        spec_capabilities_text(e.stat.capabilities@),
        18,
    ) + " "@;
    match e.handle@ {
        NodeHandleView::Space(s) => prefix + spec_pad_right(s.id, 10) + " "@ + s.key + "/  "@ + s.name,
        NodeHandleView::Page(p) => prefix + spec_pad_right(spec_decimal(p.id as nat), 10) + " "@ + p.title,
        NodeHandleView::Root => "root  list,traverse      -          /"@,
    }
}

/// A long listing: one line per entry.
pub open spec fn spec_listing_long(entries: Seq<DirEntry>) -> Seq<char>
    decreases entries.len(),
{
    if entries.len() == 0 {
        Seq::empty()
    } else {
        spec_listing_long(entries.drop_last()) + spec_entry_long(entries.last()) + "\n"@
    }
}

/// A listing in the given style.
pub open spec fn spec_render_listing(entries: Seq<DirEntry>, style: ListingStyle) -> Seq<char> {
    match style {
        ListingStyle::Simple => spec_listing_columns(entries.map_values(|e: DirEntry| spec_entry_name(e))),
        ListingStyle::Long => spec_listing_long(entries),
    }
}

/// The lines describing a node: its path, kind, capabilities and name, then its id and
/// whether it has children where known.
pub open spec fn spec_file_lines(path: Seq<char>, handle: NodeHandleView, stat: NodeStat) -> Seq<Seq<char>> {
    let base = seq![
        "path: "@ + path,
        "kind: "@ + spec_kind_label(stat.kind),
        "caps: "@ + spec_capabilities_text(stat.capabilities@),
        "name: "@ + stat.name@,
    ];
    let with_id = match handle {
        NodeHandleView::Root => base,
        NodeHandleView::Space(s) => base.push("id: "@ + s.id),
        NodeHandleView::Page(p) => base.push("id: "@ + spec_decimal(p.id as nat)),
    };
    match stat.has_children {
        Some(b) => with_id.push("has_children: "@ + if b {
            "true"@
        } else {
            "false"@
        }),
        None => with_id,
    }
}

/// A node description.
pub open spec fn spec_render_file(path: Seq<char>, handle: NodeHandleView, stat: NodeStat) -> Seq<char> {
    spec_join(spec_file_lines(path, handle, stat), "\n"@) + "\n"@
}

fn render_kind(kind: NodeKind) -> (r: &'static str)
    ensures
        r@ == spec_kind_label(kind),
{
    match kind {
        NodeKind::Root => "root",
        NodeKind::Space => "space",
        NodeKind::Page => "page",
        NodeKind::Folder => "folder",
    }
}

fn capability_label(c: NodeCapability) -> (r: &'static str)
    ensures
        r@ == spec_capability_label(c),
{
    match c {
        NodeCapability::Read => "read",
        NodeCapability::List => "list",
        NodeCapability::Traverse => "traverse",
        NodeCapability::Search => "search",
        NodeCapability::Create => "create",
        NodeCapability::Delete => "delete",
        NodeCapability::Move => "move",
        NodeCapability::Copy => "copy",
    }
}

/// The capabilities' labels joined with commas.
fn render_capabilities(caps: &[NodeCapability]) -> (r: String)
    ensures
        r@ == spec_capabilities_text(caps@),
{
    let mut labels: Vec<String> = Vec::new();
    let mut i: usize = 0;
    while i < caps.len()
        invariant
            i <= caps.len(),
            strings_view(labels@) == caps@.take(i as int).map_values(|c: NodeCapability| spec_capability_label(c)),
        decreases caps.len() - i,
    {
        let ghost before = strings_view(labels@);
        labels.push(copy_str(capability_label(caps[i])));
        assert(strings_view(labels@) == before.push(spec_capability_label(caps@[i as int])));
        assert(caps@.take(i + 1).map_values(|c: NodeCapability| spec_capability_label(c)) == before.push(
            spec_capability_label(caps@[i as int]),
        ));
        i = i + 1;
    }
    assert(caps@.take(caps.len() as int) == caps@);
    join(labels.as_slice(), ",")
}

/// The name of an entry in a simple listing.
fn entry_name(entry: &DirEntry) -> (r: String)
    ensures
        r@ == spec_entry_name(*entry),
{
    match &entry.handle {
        NodeHandle::Space(space) => {
            let mut s = space.key.clone();
            s.append("/");
            s
        },
        NodeHandle::Page(page) => {
            let mut s = page.title.clone();
            if entry.stat.has_children == Some(true) {
                s.append("/");
            }
            s
        },
        NodeHandle::Root => copy_str("/"),
    }
}

/// One row of the column layout, trailing whitespace removed.
fn row_line(names: &Vec<String>, cw: usize, columns: usize, rows: usize, row: usize) -> (r: String)
    requires
        0 < columns <= 50,
        row < rows,
        rows <= names.len(),
    ensures
        r@ == spec_trim_end(
            spec_row_raw(strings_view(names@), cw as int, columns as int, rows as int, row as int, columns as int),
        ),
{
    let ghost nv = strings_view(names@);
    let mut raw = String::new();
    let mut col: usize = 0;
    while col < columns
        invariant
            col <= columns <= 50,
            row < rows <= names.len(),
            nv == strings_view(names@),
            raw@ == spec_row_raw(nv, cw as int, columns as int, rows as int, row as int, col as int),
        decreases columns - col,
    {
        assert(col * rows <= 50 * rows) by (nonlinear_arith)
            requires
                col <= 50,
        ;
        let index: u128 = (col as u128) * (rows as u128) + (row as u128);
        assert(index == col * rows + row);
        if index < names.len() as u128 {
            let ix = index as usize;
            if col + 1 == columns || index + (rows as u128) >= names.len() as u128 {
                raw.append(names[ix].as_str());
            } else {
                let padded = pad_right(names[ix].as_str(), cw);
                raw.append(padded.as_str());
            }
        }
        col = col + 1;
    }
    trim_end_str(raw.as_str())
}

/// Names laid out in columns.
fn render_listing_columns(entries: &[DirEntry]) -> (r: String)
    ensures
        r@ == spec_listing_columns(entries@.map_values(|e: DirEntry| spec_entry_name(e))),
{
    let ghost target = entries@.map_values(|e: DirEntry| spec_entry_name(e));
    let mut names: Vec<String> = Vec::new();
    let mut i: usize = 0;
    while i < entries.len()
        invariant
            i <= entries.len(),
            strings_view(names@) == entries@.take(i as int).map_values(|e: DirEntry| spec_entry_name(e)),
        decreases entries.len() - i,
    {
        let ghost before = strings_view(names@);
        names.push(entry_name(&entries[i]));
        assert(strings_view(names@) == before.push(spec_entry_name(entries@[i as int])));
        assert(entries@.take(i + 1).map_values(|e: DirEntry| spec_entry_name(e)) == before.push(
            spec_entry_name(entries@[i as int]),
        ));
        i = i + 1;
    }
    assert(entries@.take(entries.len() as int) == entries@);
    let ghost nv = strings_view(names@);
    assert(nv == target);
    if names.len() == 0 {
        return String::new();
    }
    let mut widest: usize = 0;
    let mut j: usize = 0;
    while j < names.len()
        invariant
            j <= names.len(),
            nv == strings_view(names@),
            widest == spec_max_width(nv.take(j as int)),
        decreases names.len() - j,
    {
        let w = names[j].as_str().len();
        assert(nv.take(j + 1).drop_last() == nv.take(j as int));
        assert(nv.take(j + 1).last() == names@[j as int]@);
        if w > widest {
            widest = w;
        }
        j = j + 1;
    }
    assert(nv.take(names.len() as int) == nv);
    if widest >= 48 {
        let mut out = join(names.as_slice(), "\n");
        out.append("\n");
        return out;
    }
    let cw = widest + 2;
    let columns = 100 / cw;
    assert(2 <= columns <= 50) by (nonlinear_arith)
        requires
            2 <= cw <= 49,
            columns == 100usize / cw,
    ;
    assert(names.len() / columns < names.len()) by (nonlinear_arith)
        requires
            columns >= 2,
            names.len() >= 1,
    ;
    let rows = names.len() / columns + if names.len() % columns != 0 {
        1usize
    } else {
        0usize
    };
    assert(rows <= names.len()) by (nonlinear_arith)
        requires
            columns >= 2,
            rows == names.len() / columns + if names.len() % columns != 0 {
                1int
            } else {
                0int
            },
            names.len() >= 1,
    ;
    let ghost lines_spec = Seq::new(
        rows as nat,
        |r: int| spec_trim_end(spec_row_raw(nv, cw as int, columns as int, rows as int, r, columns as int)),
    );
    let mut lines: Vec<String> = Vec::new();
    let mut row: usize = 0;
    while row < rows
        invariant
            row <= rows <= names.len(),
            2 <= columns <= 50,
            nv == strings_view(names@),
            lines_spec == Seq::new(
                rows as nat,
                |r: int| spec_trim_end(spec_row_raw(nv, cw as int, columns as int, rows as int, r, columns as int)),
            ),
            strings_view(lines@) == lines_spec.take(row as int),
        decreases rows - row,
    {
        let line = row_line(&names, cw, columns, rows, row);
        let ghost before = strings_view(lines@);
        lines.push(line);
        assert(strings_view(lines@) == before.push(line@));
        assert(lines_spec.take(row + 1) == lines_spec.take(row as int).push(lines_spec[row as int]));
        row = row + 1;
    }
    assert(lines_spec.take(rows as int) == lines_spec);
    let mut out = join(lines.as_slice(), "\n");
    out.append("\n");
    out
}

/// One line of a long listing.
fn render_entry_long(entry: &DirEntry) -> (r: String)
    ensures
        r@ == spec_entry_long(*entry),
{
    match &entry.handle {
        NodeHandle::Root => copy_str("root  list,traverse      -          /"),
        _ => {
            let mut out = pad_right(render_kind(entry.stat.kind), 5);
            out.append(" ");
            let caps = render_capabilities(entry.stat.capabilities.as_slice());
            let caps_padded = pad_right(caps.as_str(), 18);
            out.append(caps_padded.as_str());
            out.append(" ");
            match &entry.handle {
                NodeHandle::Space(space) => {
                    let id = pad_right(space.id.as_str(), 10);
                    out.append(id.as_str());
                    out.append(" ");
                    out.append(space.key.as_str());
                    out.append("/  ");
                    out.append(space.name.as_str());
                },
                NodeHandle::Page(page) => {
                    let digits = u64_to_string(page.id);
                    let id = pad_right(digits.as_str(), 10);
                    out.append(id.as_str());
                    out.append(" ");
                    out.append(page.title.as_str());
                },
                NodeHandle::Root => {},
            }
            out
        },
    }
}

/// Renders directory entries in the given style.
pub fn render_listing(entries: &[DirEntry], style: ListingStyle) -> (r: String)
    ensures
        r@ == spec_render_listing(entries@, style),
{
    match style {
        ListingStyle::Simple => render_listing_columns(entries),
        ListingStyle::Long => {
            let mut out = String::new();
            let mut i: usize = 0;
            while i < entries.len()
                invariant
                    i <= entries.len(),
                    out@ == spec_listing_long(entries@.take(i as int)),
                decreases entries.len() - i,
            {
                let line = render_entry_long(&entries[i]);
                out.append(line.as_str());
                out.append("\n");
                assert(entries@.take(i + 1).drop_last() == entries@.take(i as int));
                i = i + 1;
            }
            assert(entries@.take(entries.len() as int) == entries@);
            out
        },
    }
}

/// Describes a node: its path, kind, capabilities, name, id and children.
pub fn render_file(path: &str, handle: &NodeHandle, stat: &NodeStat) -> (r: String)
    ensures
        r@ == spec_render_file(path@, handle@, *stat),
{
    let mut lines: Vec<String> = Vec::new();
    let mut l1 = copy_str("path: ");
    l1.append(path);
    lines.push(l1);
    let mut l2 = copy_str("kind: ");
    l2.append(render_kind(stat.kind));
    lines.push(l2);
    let mut l3 = copy_str("caps: ");
    let caps = render_capabilities(stat.capabilities.as_slice());
    l3.append(caps.as_str());
    lines.push(l3);
    let mut l4 = copy_str("name: ");
    l4.append(stat.name.as_str());
    lines.push(l4);
    match handle {
        NodeHandle::Root => {},
        NodeHandle::Space(space) => {
            let mut l = copy_str("id: ");
            l.append(space.id.as_str());
            lines.push(l);
        },
        NodeHandle::Page(page) => {
            let mut l = copy_str("id: ");
            let digits = u64_to_string(page.id);
            l.append(digits.as_str());
            lines.push(l);
        },
    }
    match stat.has_children {
        Some(b) => {
            let mut l = copy_str("has_children: ");
            if b {
                l.append("true");
            } else {
                l.append("false");
            }
            lines.push(l);
        },
        None => {},
    }
    assert(strings_view(lines@) == spec_file_lines(path@, handle@, *stat));
    let mut out = join(lines.as_slice(), "\n");
    out.append("\n");
    out
}

} // verus!
