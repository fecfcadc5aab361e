//! The `ls` subcommand: a depth-first tree of the visible names in
//! the document store. Children are sorted by visible name, folders
//! end in `/`, and each level is indented by three more spaces. The
//! caller prints the returned lines.

use crate::remarkable::connection::Connection;
use crate::remarkable::file::{spec_stem, File};
use crate::textfmt::{lex_le, str_eq, str_le};
use vstd::prelude::*;
use vstd::string::{StrSliceExecFns, StringExecFns};

verus! {

/// `ls` takes no further arguments.
#[derive(Debug, Default, Clone, Copy, PartialEq, Eq)]
pub struct LsArgs {}

pub open spec fn entry_ok(f: File) -> bool {
    f.filedata is Ok
}

pub open spec fn entry_parent(f: File) -> Seq<char> {
    match f.filedata {
        Ok(fd) => fd.metadata.parent@,
        Err(_) => Seq::empty(),
    }
}

pub open spec fn entry_name(f: File) -> Seq<char> {
    match f.filedata {
        Ok(fd) => fd.metadata.visible_name@,
        Err(_) => Seq::empty(),
    }
}

/// A collection entry is shown as a folder.
pub open spec fn entry_is_dir(f: File) -> bool {
    match f.filedata {
        Ok(fd) => fd.metadata.typ@ == "CollectionType"@,
        Err(_) => false,
    }
}

pub open spec fn entry_id(f: File) -> Seq<char> {
    spec_stem(f.path@)
}

/// Indexes into `files` that may be listed: in range, with loaded
/// metadata.
pub open spec fn valid_ok_indexes(files: Seq<File>, s: Seq<usize>) -> bool {
    forall|k: int| 0 <= k < s.len() ==> s[k] < files.len() && entry_ok(files[#[trigger] s[k] as int])
}

/// The indexes of the loaded entries whose parent is `parent`, in
/// store order.
pub open spec fn spec_children(files: Seq<File>, parent: Seq<char>) -> Seq<usize>
    decreases files.len(),
{
    if files.len() == 0 {
        Seq::empty()
    } else {
        let rest = spec_children(files.drop_last(), parent);
        if entry_ok(files.last()) && entry_parent(files.last()) == parent {
            rest.push((files.len() - 1) as usize)
        } else {
            rest
        }
    }
}

/// Insertion into a name-sorted index list: the new index goes in
/// front of the first entry with a strictly greater name, so equal
/// names keep their earlier-first order.
pub open spec fn spec_insert(files: Seq<File>, x: usize, s: Seq<usize>) -> Seq<usize>
    decreases s.len(),
{
    if s.len() == 0 {
        seq![x]
    } else if lex_le(entry_name(files[s[0] as int]), entry_name(files[x as int])) {
        seq![s[0]] + spec_insert(files, x, s.drop_first())
    } else {
        seq![x] + s
    }
}

/// Stable insertion sort of an index list by visible name.
pub open spec fn spec_sort(files: Seq<File>, s: Seq<usize>) -> Seq<usize>
    decreases s.len(),
{
    if s.len() == 0 {
        Seq::empty()
    } else {
        spec_insert(files, s.last(), spec_sort(files, s.drop_last()))
    }
}

/// The listing of the entries `idxs`, prefixed with `prefix`: each
/// entry's line (name, `/` appended for a folder), and for a folder
/// the listing of its children, sorted by name and indented three
/// more spaces, before the next sibling. `fuel` bounds the nesting
/// depth; a store whose folders nest deeper than its entry count is
/// malformed and is cut off there.
pub open spec fn spec_ls_list(
    files: Seq<File>,
    idxs: Seq<usize>,
    prefix: Seq<char>,
    fuel: nat,
) -> Seq<Seq<char>>
    decreases fuel, idxs.len(),
{
    if idxs.len() == 0 {
        Seq::empty()
    } else {
        let f = files[idxs[0] as int];
        let line = prefix + entry_name(f) + (if entry_is_dir(f) {
            "/"@
        } else {
            Seq::empty()
        });
        let sub = if entry_is_dir(f) && fuel > 0 {
            spec_ls_list(
                files,
                spec_sort(files, spec_children(files, entry_id(f))),
                "   "@ + prefix,
                (fuel - 1) as nat,
            )
        } else {
            Seq::empty()
        };
        seq![line] + sub + spec_ls_list(files, idxs.drop_first(), prefix, fuel)
    }
}

/// The whole tree: the sorted children of the root, with no prefix.
pub open spec fn spec_ls_lines(files: Seq<File>) -> Seq<Seq<char>> {
    spec_ls_list(
        files,
        spec_sort(files, spec_children(files, Seq::empty())),
        Seq::empty(),
        files.len(),
    )
}

/// The depth-first tree of visible names under the device root, one
/// line per entry.
pub fn ls(conn: &Connection, args: LsArgs) -> (lines: Vec<String>)
    requires
        conn.lazy_files is Some,
    ensures
        match conn.lazy_files {
            Some(files) => lines.deep_view() == spec_ls_lines(files@),
            None => false,
        },
{
    proof {
        reveal_strlit("");
    }
    let files = conn.files();
    let kids = children_of(files, "");
    proof {
        assert(""@ =~= Seq::<char>::empty());
    }
    let sorted = sort_by_name(files, kids);
    let mut out: Vec<String> = Vec::new();
    ls_list(files, &sorted, "", files.len(), &mut out);
    proof {
        assert(out.deep_view() =~= spec_ls_lines(files@));
    }
    out
}

/// The visible name of a loaded entry.
fn name_of(files: &Vec<File>, i: usize) -> (r: &str)
    requires
        i < files@.len(),
        entry_ok(files@[i as int]),
    ensures
        r@ == entry_name(files@[i as int]),
{
    match &files[i].filedata {
        Ok(fd) => fd.metadata.visible_name.as_str(),
        Err(_) => vstd::pervasive::unreached(),
    }
}

/// The loaded entries whose parent field is `parent`, in store order.
fn children_of(files: &Vec<File>, parent: &str) -> (r: Vec<usize>)
    ensures
        r@ == spec_children(files@, parent@),
        valid_ok_indexes(files@, r@),
{
    let n = files.len();
    let mut out: Vec<usize> = Vec::new();
    let mut i: usize = 0;
    proof {
        assert(files@.take(0) =~= Seq::<File>::empty());
    }
    while i < n
        invariant
            i <= n,
            n == files@.len(),
            out@ == spec_children(files@.take(i as int), parent@),
            valid_ok_indexes(files@, out@),
        decreases n - i,
    {
        proof {
            assert(files@.take(i + 1).drop_last() =~= files@.take(i as int));
            assert(files@.take(i + 1).last() == files@[i as int]);
        }
        match &files[i].filedata {
            Ok(fd) => {
                if str_eq(fd.metadata.parent.as_str(), parent) {
                    out.push(i);
                }
            },
            Err(_) => {},
        }
        i = i + 1;
    }
    proof {
        assert(files@.take(n as int) =~= files@);
    }
    out
}

/// `spec_insert` puts the new index exactly where the first strictly
/// greater name sits.
proof fn lemma_insert_at_pos(files: Seq<File>, x: usize, s: Seq<usize>, pos: int)
    requires
        0 <= pos <= s.len(),
        forall|j: int| 0 <= j < pos ==> lex_le(entry_name(files[#[trigger] s[j] as int]), entry_name(files[x as int])),
        pos < s.len() ==> !lex_le(entry_name(files[s[pos] as int]), entry_name(files[x as int])),
    ensures
        spec_insert(files, x, s) == s.take(pos) + seq![x] + s.skip(pos),
    decreases s.len(),
{
    if s.len() == 0 {
        assert(spec_insert(files, x, s) =~= s.take(pos) + seq![x] + s.skip(pos));
    } else if pos == 0 {
        assert(spec_insert(files, x, s) =~= s.take(pos) + seq![x] + s.skip(pos));
    } else {
        lemma_insert_at_pos(files, x, s.drop_first(), pos - 1);
        assert(s.drop_first().take(pos - 1) =~= s.take(pos).drop_first());
        assert(spec_insert(files, x, s) =~= s.take(pos) + seq![x] + s.skip(pos));
    }
}

/// Inserts `x` into the name-sorted list `v` as `spec_insert` says.
fn insert_sorted(files: &Vec<File>, x: usize, v: &mut Vec<usize>)
    requires
        x < files@.len(),
        entry_ok(files@[x as int]),
        valid_ok_indexes(files@, old(v)@),
    ensures
        final(v)@ == spec_insert(files@, x, old(v)@),
        valid_ok_indexes(files@, final(v)@),
{
    let n = v.len();
    let mut pos: usize = 0;
    let mut found = false;
    while !found && pos < n
        invariant
            pos <= n,
            n == v@.len(),
            x < files@.len(),
            entry_ok(files@[x as int]),
            valid_ok_indexes(files@, v@),
            found ==> pos < n && !lex_le(
                entry_name(files@[v@[pos as int] as int]),
                entry_name(files@[x as int]),
            ),
            forall|j: int|
                0 <= j < pos ==> lex_le(
                    entry_name(files@[#[trigger] v@[j] as int]),
                    entry_name(files@[x as int]),
                ),
        decreases n - pos + (if found { 0int } else { 1int }),
    {
        let there = name_of(files, v[pos]);
        let fresh = name_of(files, x);
        if str_le(there, fresh) {
            pos = pos + 1;
        } else {
            found = true;
        }
    }
    proof {
        lemma_insert_at_pos(files@, x, v@, pos as int);
    }
    v.insert(pos, x);
    proof {
        assert(v@ =~= old(v)@.take(pos as int) + seq![x] + old(v)@.skip(pos as int));
    }
}

/// Sorts an index list by visible name, stably, as `spec_sort` says.
fn sort_by_name(files: &Vec<File>, v: Vec<usize>) -> (r: Vec<usize>)
    requires
        valid_ok_indexes(files@, v@),
    ensures
        r@ == spec_sort(files@, v@),
        valid_ok_indexes(files@, r@),
{
    let n = v.len();
    let mut out: Vec<usize> = Vec::new();
    let mut i: usize = 0;
    proof {
        assert(v@.take(0) =~= Seq::<usize>::empty());
    }
    while i < n
        invariant
            i <= n,
            n == v@.len(),
            valid_ok_indexes(files@, v@),
            out@ == spec_sort(files@, v@.take(i as int)),
            valid_ok_indexes(files@, out@),
        decreases n - i,
    {
        proof {
            assert(v@.take(i + 1).drop_last() =~= v@.take(i as int));
            assert(v@.take(i + 1).last() == v@[i as int]);
        }
        insert_sorted(files, v[i], &mut out);
        i = i + 1;
    }
    proof {
        assert(v@.take(n as int) =~= v@);
    }
    out
}

/// Appends the listing of `idxs` under `prefix` to `out`, exactly as
/// `spec_ls_list` says.
fn ls_list(files: &Vec<File>, idxs: &Vec<usize>, prefix: &str, fuel: usize, out: &mut Vec<String>)
    requires
        valid_ok_indexes(files@, idxs@),
    ensures
        final(out).deep_view() == old(out).deep_view() + spec_ls_list(
            files@,
            idxs@,
            prefix@,
            fuel as nat,
        ),
    decreases fuel,
{
    let n = idxs.len();
    let mut j: usize = 0;
    proof {
        assert(idxs@.skip(0) =~= idxs@);
    }
    while j < n
        invariant
            j <= n,
            n == idxs@.len(),
            valid_ok_indexes(files@, idxs@),
            out.deep_view() + spec_ls_list(files@, idxs@.skip(j as int), prefix@, fuel as nat)
                == old(out).deep_view() + spec_ls_list(files@, idxs@, prefix@, fuel as nat),
        decreases n - j,
    {
        let ghost pre_entry = out.deep_view();
        let idx = idxs[j];
        proof {
            assert(idxs@.skip(j as int)[0] == idxs@[j as int]);
            assert(idxs@.skip(j as int).drop_first() =~= idxs@.skip(j + 1));
        }
        let f = &files[idx];
        let is_dir = match &f.filedata {
            Ok(fd) => str_eq(fd.metadata.typ.as_str(), "CollectionType"),
            Err(_) => vstd::pervasive::unreached(),
        };
        let mut line = prefix.to_owned();
        line.append(name_of(files, idx));
        if is_dir {
            line.append("/");
        }
        let ghost line_view = line@;
        proof {
            assert(line_view == prefix@ + entry_name(files@[idx as int]) + (if entry_is_dir(
                files@[idx as int],
            ) {
                "/"@
            } else {
                Seq::<char>::empty()
            }));
        }
        let ghost pre = out.deep_view();
        out.push(line);
        proof {
            assert(out.deep_view() =~= pre.push(line_view));
        }
        if is_dir && fuel > 0 {
            let id = f.id();
            let kids = children_of(files, id.as_str());
            let sorted = sort_by_name(files, kids);
            let mut deeper = String::from_str("   ");
            deeper.append(prefix);
            ls_list(files, &sorted, deeper.as_str(), fuel - 1, out);
        }
        proof {
            assert(out.deep_view() =~= pre_entry + seq![line_view] + (if entry_is_dir(
                files@[idx as int],
            ) && fuel > 0 {
                spec_ls_list(
                    files@,
                    spec_sort(files@, spec_children(files@, entry_id(files@[idx as int]))),
                    "   "@ + prefix@,
                    (fuel - 1) as nat,
                )
            } else {
                Seq::<Seq<char>>::empty()
            }));
        }
        j = j + 1;
    }
    proof {
        assert(idxs@.skip(n as int) =~= Seq::<usize>::empty());
    }
}

} // verus!
