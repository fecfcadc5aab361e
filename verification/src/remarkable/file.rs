//! One entry of the device's document store: the path of its
//! `.metadata` sidecar together with the parsed metadata, or the load
//! failure if the sidecar could not be read.

use crate::errors::Error;
use crate::remarkable::metadata::Metadata;
use vstd::prelude::*;
use vstd::string::StrSliceExecFns;

verus! {

/// The characters of `path` after its last `/` (the whole of it if
/// there is no `/`); empty when the path ends in `/`. A trailing
/// separator is taken at face value — such a path names no file —
/// where the standard path type would back up over it; the paths this
/// library sees come from directory listings and never carry one.
pub open spec fn spec_file_name(path: Seq<char>) -> Seq<char>
    decreases path.len(),
{
    if path.len() == 0 {
        path
    } else if path.last() == '/' {
        Seq::empty()
    } else {
        spec_file_name(path.drop_last()).push(path.last())
    }
}

/// The index of the last `.` of `name` that is not its first
/// character, or `-1` if there is none. A name that is nothing but a
/// leading dot (`.metadata`) therefore keeps its dot.
pub open spec fn last_dot(name: Seq<char>) -> int
    decreases name.len(),
{
    if name.len() <= 1 {
        -1
    } else if name.last() == '.' {
        name.len() - 1
    } else {
        last_dot(name.drop_last())
    }
}

/// The file stem of `path`: its last path segment with the final
/// extension removed, or `<null>` when there is no segment at all.
pub open spec fn spec_stem(path: Seq<char>) -> Seq<char> {
    let name = spec_file_name(path);
    if name.len() == 0 {
        "<null>"@
    } else if last_dot(name) < 0 {
        name
    } else {
        name.take(last_dot(name))
    }
}

/// The last path segment of `path`, extension kept, or `<null>` when
/// the path has no segment; the default user-facing name of an
/// uploaded file.
pub open spec fn spec_visible_base(path: Seq<char>) -> Seq<char> {
    if spec_file_name(path).len() == 0 {
        "<null>"@
    } else {
        spec_file_name(path)
    }
}

pub fn file_name_of(path: &str) -> (r: String)
    ensures
        r@ == spec_visible_base(path@),
{
    let n = path.unicode_len();
    let mut start: usize = 0;
    let mut i: usize = 0;
    while i < n
        invariant
            i <= n,
            n == path@.len(),
            start <= i,
            start == 0 || path@[start - 1] == '/',
            forall|j: int| start <= j < i ==> path@[j] != '/',
        decreases n - i,
    {
        if path.get_char(i) == '/' {
            start = i + 1;
        }
        i = i + 1;
    }
    proof {
        lemma_file_name_subrange(path@, start as int);
    }
    if start == n {
        proof {
            assert(spec_file_name(path@) =~= path@.subrange(start as int, n as int));
        }
        "<null>".to_owned()
    } else {
        let part = path.substring_char(start, n);
        part.to_owned()
    }
}

/// Whether `path` names a metadata sidecar: its file name carries the
/// extension `metadata`.
pub open spec fn spec_is_metadata_path(path: Seq<char>) -> bool {
    let name = spec_file_name(path);
    last_dot(name) >= 0 && name.skip(last_dot(name) + 1) == "metadata"@
}

/// The rule deciding which store entries exist for the resolver and
/// the listing: only `.metadata` sidecars are loaded.
pub fn is_metadata_path(path: &str) -> (r: bool)
    ensures
        r == spec_is_metadata_path(path@),
{
    let n = path.unicode_len();
    let mut start: usize = 0;
    let mut i: usize = 0;
    while i < n
        invariant
            i <= n,
            n == path@.len(),
            start <= i,
            start == 0 || path@[start - 1] == '/',
            forall|j: int| start <= j < i ==> path@[j] != '/',
        decreases n - i,
    {
        if path.get_char(i) == '/' {
            start = i + 1;
        }
        i = i + 1;
    }
    proof {
        lemma_file_name_subrange(path@, start as int);
    }
    if start == n {
        proof {
            assert(spec_file_name(path@) =~= path@.subrange(start as int, n as int));
        }
        return false;
    }
    let mut dot: usize = n;
    let mut j: usize = start + 1;
    while j < n
        invariant
            start + 1 <= j <= n,
            n == path@.len(),
            dot == n || (start + 1 <= dot < j && path@[dot as int] == '.'),
            dot == n ==> forall|k: int| start < k < j ==> path@[k] != '.',
            dot != n ==> forall|k: int| dot < k < j ==> path@[k] != '.',
        decreases n - j,
    {
        if path.get_char(j) == '.' {
            dot = j;
        }
        j = j + 1;
    }
    let ghost name = path@.subrange(start as int, n as int);
    if dot == n {
        proof {
            lemma_last_dot_none(name);
        }
        false
    } else {
        proof {
            lemma_last_dot_found(name, dot - start as int);
        }
        let ext = path.substring_char(dot + 1, n);
        proof {
            assert(ext@ =~= name.skip(last_dot(name) + 1));
        }
        crate::textfmt::str_eq(ext, "metadata")
    }
}

/// The parsed contents of one store entry.
#[derive(Debug)]
pub struct FileData {
    pub metadata: Metadata,
}

/// One store entry: its sidecar path, and either the parsed metadata
/// or the load failure. Keeping failures per entry lets listing and
/// folder search skip bad entries without aborting.
#[derive(Debug)]
pub struct File {
    pub path: String,
    pub filedata: Result<FileData, Error>,
}

impl File {
    /// Wraps one store entry. The caller reads and parses the sidecar;
    /// an entry whose sidecar did not parse carries `FileFailedToLoad`.
    pub fn load(path: String, metadata: Option<Metadata>) -> (f: File)
        ensures
            f.path == path,
            match metadata {
                Some(m) => f.filedata matches Ok(fd) && fd.metadata == m,
                None => f.filedata matches Err(e) && e matches Error::FileFailedToLoad(p) && p@
                    == path@,
            },
    {
        match metadata {
            Some(m) => File { path, filedata: Ok(FileData { metadata: m }) },
            None => {
                let failed = Error::FileFailedToLoad(path.clone());
                File { path, filedata: Err(failed) }
            },
        }
    }

    /// The document UUID this entry stands for: the stem of its
    /// sidecar's file name.
    pub fn id(&self) -> (r: String)
        ensures
            r@ == spec_stem(self.path@),
    {
        let s = self.path.as_str();
        let n = s.unicode_len();
        // Find where the last path segment starts.
        let mut start: usize = 0;
        let mut i: usize = 0;
        while i < n
            invariant
                i <= n,
                n == s@.len(),
                start <= i,
                start == 0 || s@[start - 1] == '/',
                forall|j: int| start <= j < i ==> s@[j] != '/',
            decreases n - i,
        {
            if s.get_char(i) == '/' {
                start = i + 1;
            }
            i = i + 1;
        }
        proof {
            lemma_file_name_subrange(s@, start as int);
        }
        if start == n {
            let r = "<null>".to_owned();
            proof {
                assert(spec_file_name(s@) =~= s@.subrange(start as int, n as int));
            }
            return r;
        }
        // Find the last dot after the segment's first character.
        let mut dot: usize = n;
        let mut j: usize = start + 1;
        while j < n
            invariant
                start + 1 <= j <= n,
                n == s@.len(),
                dot == n || (start + 1 <= dot < j && s@[dot as int] == '.'),
                dot == n ==> forall|k: int| start < k < j ==> s@[k] != '.',
                dot != n ==> forall|k: int| dot < k < j ==> s@[k] != '.',
            decreases n - j,
        {
            if s.get_char(j) == '.' {
                dot = j;
            }
            j = j + 1;
        }
        let ghost name = s@.subrange(start as int, n as int);
        proof {
            if dot == n {
                lemma_last_dot_none(name);
            } else {
                lemma_last_dot_found(name, dot - start as int);
            }
        }
        let end = if dot == n {
            n
        } else {
            dot
        };
        let part = s.substring_char(start, end);
        proof {
            if dot != n {
                assert(name.take(last_dot(name)) =~= s@.subrange(start as int, dot as int));
            }
        }
        part.to_owned()
    }

    /// The user-facing name of the entry, or the stored load failure.
    pub fn visible_name(&self) -> (r: Result<&str, Error>)
        ensures
            match self.filedata {
                Ok(fd) => r matches Ok(v) && v@ == fd.metadata.visible_name@,
                Err(_) => r matches Err(e) && e matches Error::FileFailedToLoad(p) && p@
                    == self.path@,
            },
    {
        match &self.filedata {
            Ok(fd) => Ok(fd.metadata.visible_name.as_str()),
            Err(_) => Err(Error::FileFailedToLoad(self.path.clone())),
        }
    }
}

/// A segment that starts right after a `/` (or at the front) and holds
/// no further `/` is exactly what `spec_file_name` returns.
pub(crate) proof fn lemma_file_name_subrange(s: Seq<char>, start: int)
    requires
        0 <= start <= s.len(),
        start == 0 || s[start - 1] == '/',
        forall|j: int| start <= j < s.len() ==> s[j] != '/',
    ensures
        spec_file_name(s) == s.subrange(start, s.len() as int),
    decreases s.len(),
{
    if s.len() == 0 {
        assert(spec_file_name(s) =~= s.subrange(start, s.len() as int));
    } else if start == s.len() {
        assert(s.last() == '/');
        assert(spec_file_name(s) =~= s.subrange(start, s.len() as int));
    } else {
        assert(s.last() != '/');
        lemma_file_name_subrange(s.drop_last(), start);
        assert(s.drop_last().subrange(start, s.drop_last().len() as int).push(s.last()) =~= (
        s.subrange(start, s.len() as int)));
    }
}

pub(crate) proof fn lemma_last_dot_none(name: Seq<char>)
    requires
        forall|j: int| 1 <= j < name.len() ==> name[j] != '.',
    ensures
        last_dot(name) == -1,
    decreases name.len(),
{
    if name.len() > 1 {
        lemma_last_dot_none(name.drop_last());
    }
}

pub(crate) proof fn lemma_last_dot_found(name: Seq<char>, k: int)
    requires
        1 <= k < name.len(),
        name[k] == '.',
        forall|j: int| k < j < name.len() ==> name[j] != '.',
    ensures
        last_dot(name) == k,
    decreases name.len(),
{
    if k == name.len() - 1 {
    } else {
        lemma_last_dot_found(name.drop_last(), k);
    }
}

} // verus!
