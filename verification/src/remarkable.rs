pub mod connection;
pub mod content;
pub mod file;
pub mod metadata;
pub mod sshfs;

pub use connection::Connection;
pub use content::Content;
pub use file::File;
pub use file::FileData;
pub use metadata::Metadata;
pub use sshfs::RemoteCommand;
pub use sshfs::SshFsMount;

use vstd::prelude::*;
use vstd::string::StringExecFns;

verus! {

/// The directory skeleton of a new document: the annotation directory
/// and its three empty siblings, all sharing the UUID as file stem,
/// under `root`. The caller creates them, in this order, and must fail
/// if any already exists.
pub fn create_bare_fs(uuid: &str, root: &str) -> (r: (String, Vec<String>))
    ensures
        r.0@ == root@ + "/"@ + uuid@,
        r.1.deep_view() =~= seq![
            r.0@,
            r.0@ + ".highlights"@,
            r.0@ + ".textconvertion"@,
            r.0@ + ".thumbnails"@,
        ],
{
    let mut base = root.to_owned();
    base.append("/");
    base.append(uuid);
    let mut dirs: Vec<String> = Vec::new();
    dirs.push(base.clone());
    dirs.push(with_ext(&base, ".highlights"));
    dirs.push(with_ext(&base, ".textconvertion"));
    dirs.push(with_ext(&base, ".thumbnails"));
    let r = (base, dirs);
    assert(r.1.deep_view() =~= seq![
        r.0@,
        r.0@ + ".highlights"@,
        r.0@ + ".textconvertion"@,
        r.0@ + ".thumbnails"@,
    ]);
    r
}

/// `base` with `ext` appended (the dot belongs to `ext`).
pub fn with_ext(base: &String, ext: &str) -> (r: String)
    ensures
        r@ == base@ + ext@,
{
    let mut out = base.clone();
    out.append(ext);
    out
}

} // verus!
