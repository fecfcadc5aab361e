//! A session against the tablet: the sshfs mount of its home
//! directory, the cached list of store entries, and the folder
//! resolver that turns a visible name into a document UUID.

use crate::errors::Error;
use crate::remarkable::file::{spec_stem, File};
use crate::remarkable::sshfs::{spec_remote_target, remote_target, RemoteCommand, SshFsMount};
use crate::textfmt::str_eq;
use vstd::prelude::*;
use vstd::string::StringExecFns;

verus! {

/// Where the document store lives under the mount point.
pub open spec fn data_dir_suffix() -> Seq<char> {
    "/.local/share/remarkable/xochitl"@
}

/// An entry counts for the folder resolver when its metadata loaded,
/// it is a collection, and its visible name matches exactly.
pub open spec fn folder_match(f: File, name: Seq<char>) -> bool {
    f.filedata matches Ok(fd) && fd.metadata.typ@ == "CollectionType"@
        && fd.metadata.visible_name@ == name
}

/// `id` is the stem of the first entry that matches `name`.
pub open spec fn folder_resolves_to(files: Seq<File>, name: Seq<char>, id: Seq<char>) -> bool {
    exists|i: int|
        0 <= i < files.len() && #[trigger] folder_match(files[i], name) && id == spec_stem(
            files[i].path@,
        ) && (forall|j: int| 0 <= j < i ==> !folder_match(files[j], name))
}

/// What `find_folder` promises: the stem of the first matching entry,
/// or `FolderNotFound` exactly when no entry matches.
pub open spec fn find_folder_post(files: Seq<File>, name: Seq<char>, r: Result<
    String,
    Error,
>) -> bool {
    match r {
        Ok(id) => folder_resolves_to(files, name, id@),
        Err(e) => e matches Error::FolderNotFound(n) && n@ == name && (forall|i: int|
            0 <= i < files.len() ==> !(#[trigger] folder_match(files[i], name))),
    }
}

pub struct Connection {
    pub user: String,
    pub host: String,
    /// The sshfs mount; its release path is driven by the caller.
    pub mount: SshFsMount,
    /// The store entries, loaded once per session.
    pub lazy_files: Option<Vec<File>>,
    /// The full path of the document store under the mount point.
    pub path: String,
}

impl Connection {
    /// Opens a session: refuses an existing mount point, else hands
    /// back the connection in mounted state together with the sshfs
    /// command the caller must run.
    pub fn connect(user: &str, host: &str, mount_point: &str, mount_point_exists: bool) -> (r:
        Result<(Connection, RemoteCommand), Error>)
        ensures
            mount_point_exists ==> (r matches Err(e) && e matches Error::MountPointExists(p) && p@
                == mount_point@),
            !mount_point_exists ==> (r matches Ok(pair) && pair.0.user@ == user@ && pair.0.host@
                == host@ && pair.0.mount.mounted && pair.0.mount.path@ == mount_point@
                && pair.0.lazy_files is None && pair.0.path@ == mount_point@ + data_dir_suffix()
                && pair.1.program@ == "sshfs"@ && pair.1.args.deep_view() =~= seq![
                spec_remote_target(user@, host@, ":"@),
                mount_point@,
            ]),
    {
        let mut mount = SshFsMount::new(user, host, mount_point);
        match mount.mount(mount_point_exists) {
            Err(e) => Err(e),
            Ok(cmd) => {
                let mut path = mount_point.to_owned();
                path.append("/.local/share/remarkable/xochitl");
                let conn = Connection {
                    user: user.to_owned(),
                    host: host.to_owned(),
                    mount,
                    lazy_files: None,
                    path,
                };
                Ok((conn, cmd))
            },
        }
    }

    pub fn mount_point(&self) -> (r: &String)
        ensures
            r@ == self.mount.path@,
    {
        self.mount.mount_point()
    }

    /// The document store directory under the mount point.
    pub fn data_dir(&self) -> (r: String)
        ensures
            r@ == self.mount.path@ + data_dir_suffix(),
    {
        let mut out = self.mount.mount_point().clone();
        out.append("/.local/share/remarkable/xochitl");
        out
    }

    /// The command that restarts the tablet's document manager; the
    /// caller runs it on the remote host, fire and forget.
    pub fn restart(&self) -> (cmd: RemoteCommand)
        ensures
            cmd.program@ == "ssh"@,
            cmd.args.deep_view() =~= seq![
                spec_remote_target(self.user@, self.host@, Seq::empty()),
                "systemctl"@,
                "restart"@,
                "xochitl"@,
            ],
    {
        let target = remote_target(self.user.as_str(), self.host.as_str(), false);
        let mut args: Vec<String> = Vec::new();
        args.push(target);
        args.push(String::from_str("systemctl"));
        args.push(String::from_str("restart"));
        args.push(String::from_str("xochitl"));
        let cmd = RemoteCommand { program: String::from_str("ssh"), args };
        assert(cmd.args.deep_view() =~= seq![
            spec_remote_target(self.user@, self.host@, Seq::empty()),
            "systemctl"@,
            "restart"@,
            "xochitl"@,
        ]);
        cmd
    }

    /// Stores the entry list the caller read from the document store;
    /// called once, right after the session opens.
    pub fn load_files(&mut self, files: Vec<File>)
        ensures
            final(self).lazy_files == Some(files),
            final(self).user == old(self).user,
            final(self).host == old(self).host,
            final(self).mount == old(self).mount,
            final(self).path == old(self).path,
    {
        self.lazy_files = Some(files);
    }

    /// The loaded entry list.
    pub fn files(&self) -> (r: &Vec<File>)
        requires
            self.lazy_files is Some,
        ensures
            self.lazy_files == Some(*r),
    {
        match &self.lazy_files {
            Some(files) => files,
            None => vstd::pervasive::unreached(),
        }
    }

    /// Resolves a folder's visible name to its document UUID: the stem
    /// of the first loaded entry that is a collection with that exact
    /// name, or `FolderNotFound`.
    pub fn find_folder(&self, folder: &str) -> (r: Result<String, Error>)
        requires
            self.lazy_files is Some,
        ensures
            match self.lazy_files {
                Some(files) => find_folder_post(files@, folder@, r),
                None => false,
            },
    {
        let files = self.files();
        let n = files.len();
        let mut i: usize = 0;
        while i < n
            invariant
                i <= n,
                n == files@.len(),
                self.lazy_files == Some(*files),
                forall|j: int| 0 <= j < i ==> !folder_match(files@[j], folder@),
            decreases n - i,
        {
            let f = &files[i];
            match &f.filedata {
                Ok(fd) => {
                    if str_eq(fd.metadata.typ.as_str(), "CollectionType") && str_eq(
                        fd.metadata.visible_name.as_str(),
                        folder,
                    ) {
                        let id = f.id();
                        proof {
                            assert(folder_match(files@[i as int], folder@));
                        }
                        return Ok(id);
                    }
                },
                Err(_) => {},
            }
            proof {
                assert(!folder_match(files@[i as int], folder@));
            }
            i = i + 1;
        }
        Err(Error::FolderNotFound(folder.to_owned()))
    }
}

} // verus!
