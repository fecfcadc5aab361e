//! The `copy` subcommand: mirror a local directory tree into the
//! device's document store. The caller walks the tree and performs
//! the copies; the library fixes, for every collected file, where it
//! has to go.

use crate::errors::Error;
use crate::remarkable::connection::{data_dir_suffix, Connection};
use crate::textfmt::str_eq;
use vstd::prelude::*;
use vstd::string::{StrSliceExecFns, StringExecFns};

verus! {

#[derive(Debug)]
pub struct CopierArgs {
    /// The source directory whose files are copied.
    pub src: String,
    /// The destination directory; the device's document store when
    /// absent.
    pub dest: Option<String>,
}

/// The path of `path` relative to `root`: empty when they are equal,
/// the part after `root/` when `path` sits under `root`, nothing
/// otherwise.
pub open spec fn spec_strip_prefix(root: Seq<char>, path: Seq<char>) -> Option<Seq<char>> {
    if path == root {
        Some(Seq::empty())
    } else if path.len() > root.len() && path.take(root.len() as int) == root && path[root.len() as int]
        == '/' {
        Some(path.skip(root.len() as int + 1))
    } else {
        Option::None
    }
}

/// Where a file with relative path `rel` lands under `dst`.
pub open spec fn spec_dest_for(dst: Seq<char>, rel: Seq<char>) -> Seq<char> {
    if rel.len() == 0 {
        dst
    } else {
        dst + "/"@ + rel
    }
}

/// The relative path of `path` under `root`, as `spec_strip_prefix`
/// says.
pub fn strip_prefix(root: &str, path: &str) -> (r: Option<String>)
    ensures
        match r {
            Some(rel) => spec_strip_prefix(root@, path@) == Some(rel@),
            None => spec_strip_prefix(root@, path@) is None,
        },
{
    let rn = root.unicode_len();
    let pn = path.unicode_len();
    if pn < rn {
        return Option::None;
    }
    let head = path.substring_char(0, rn);
    if !str_eq(head, root) {
        proof {
            assert(path@.take(rn as int) =~= head@);
            assert(path@ != root@) by {
                if path@ == root@ {
                    assert(path@.take(rn as int) =~= path@);
                }
            }
        }
        return Option::None;
    }
    if pn == rn {
        proof {
            assert(path@ =~= root@);
        }
        let empty_rel = String::new();
        return Some(empty_rel);
    }
    if path.get_char(rn) == '/' {
        let rel = path.substring_char(rn + 1, pn);
        proof {
            assert(path@ != root@);
            assert(rel@ =~= path@.skip(rn + 1));
        }
        Some(rel.to_owned())
    } else {
        proof {
            assert(path@ != root@);
        }
        Option::None
    }
}

/// What `copy` promises for each collected file: its destination under
/// `dst`, or a failure naming the first file that does not sit under
/// the source directory.
pub open spec fn copy_post(
    src: Seq<char>,
    dst: Seq<char>,
    files: Seq<Seq<char>>,
    r: Result<Vec<String>, Error>,
) -> bool {
    match r {
        Ok(dests) => dests.deep_view().len() == files.len() && forall|i: int|
            0 <= i < files.len() ==> ((#[trigger] spec_strip_prefix(src, files[i])) matches Some(
            rel) && dests.deep_view()[i] == spec_dest_for(dst, rel)),
        Err(e) => e matches Error::PathPrefix(p) && exists|i: int|
            0 <= i < files.len() && p@ == files[i] && (#[trigger] spec_strip_prefix(src, files[i]))
                is None && (forall|j: int| 0 <= j < i ==> spec_strip_prefix(src, files[j]) is Some),
    }
}

/// Fixes the destination of every collected file: the file's path
/// relative to `args.src`, joined onto the destination directory (the
/// device's document store when none was given).
pub fn copy(conn: &Connection, args: &CopierArgs, files: &Vec<String>) -> (r: Result<
    Vec<String>,
    Error,
>)
    ensures
        copy_post(
            args.src@,
            match args.dest {
                Some(d) => d@,
                None => conn.mount.path@ + data_dir_suffix(),
            },
            files.deep_view(),
            r,
        ),
{
    let dst: String = match &args.dest {
        Some(d) => d.clone(),
        None => conn.data_dir(),
    };
    let n = files.len();
    let mut dests: Vec<String> = Vec::new();
    let mut i: usize = 0;
    while i < n
        invariant
            i <= n,
            n == files@.len(),
            dst@ == (match args.dest {
                Some(d) => d@,
                None => conn.mount.path@ + data_dir_suffix(),
            }),
            dests.deep_view().len() == i,
            forall|j: int|
                0 <= j < i ==> ((#[trigger] spec_strip_prefix(args.src@, files.deep_view()[j]))
                    matches Some(rel) && dests.deep_view()[j] == spec_dest_for(dst@, rel)),
        decreases n - i,
    {
        proof {
            assert(files.deep_view()[i as int] == files@[i as int]@);
        }
        match strip_prefix(args.src.as_str(), files[i].as_str()) {
            Some(rel) => {
                let dest = if rel.as_str().is_empty() {
                    dst.clone()
                } else {
                    let mut d = dst.clone();
                    d.append("/");
                    d.append(rel.as_str());
                    d
                };
                let ghost dv = dest@;
                let ghost prev = dests.deep_view();
                dests.push(dest);
                proof {
                    assert(dests.deep_view() =~= prev.push(dv));
                }
                i = i + 1;
            },
            None => {
                return Err(Error::PathPrefix(files[i].clone()));
            },
        }
    }
    Ok(dests)
}

} // verus!
