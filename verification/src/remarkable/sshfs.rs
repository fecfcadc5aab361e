//! The mounted remote filesystem as a state machine. The library
//! decides what may happen and which command has to run; the caller
//! executes the returned command and reports what it saw.

use crate::errors::Error;
use vstd::prelude::*;
use vstd::string::StringExecFns;

verus! {

/// A program and its arguments, ready to be executed by the caller.
#[derive(Debug, Clone, PartialEq, Eq)]
pub struct RemoteCommand {
    pub program: String,
    pub args: Vec<String>,
}

/// `user@host` followed by `suffix` (`:` for an sshfs source, empty
/// for an ssh destination).
pub open spec fn spec_remote_target(user: Seq<char>, host: Seq<char>, suffix: Seq<char>) -> Seq<
    char,
> {
    user + "@"@ + host + suffix
}

pub fn remote_target(user: &str, host: &str, colon: bool) -> (r: String)
    ensures
        colon ==> r@ == spec_remote_target(user@, host@, ":"@),
        !colon ==> r@ == spec_remote_target(user@, host@, Seq::empty()),
{
    let mut out = user.to_owned();
    out.append("@");
    out.append(host);
    if colon {
        out.append(":");
    } else {
        proof {
            assert(out@ =~= spec_remote_target(user@, host@, Seq::empty()));
        }
    }
    out
}

/// The mount of the tablet's home directory over sshfs:
/// `Unmounted -> Mounted -> Unmounted`.
#[derive(Debug)]
pub struct SshFsMount {
    pub user: String,
    pub host: String,
    pub path: String,
    pub mounted: bool,
}

impl SshFsMount {
    pub fn new(user: &str, host: &str, mount_point: &str) -> (m: SshFsMount)
        ensures
            m.user@ == user@,
            m.host@ == host@,
            m.path@ == mount_point@,
            !m.mounted,
    {
        SshFsMount {
            user: user.to_owned(),
            host: host.to_owned(),
            path: mount_point.to_owned(),
            mounted: false,
        }
    }

    /// Asks to mount. Refused when already mounted or when the mount
    /// point exists on disk (the caller checks and reports that):
    /// an unrelated directory must never be clobbered. On success the
    /// caller creates the mount point and runs the returned command.
    pub fn mount(&mut self, mount_point_exists: bool) -> (r: Result<RemoteCommand, Error>)
        ensures
            (old(self).mounted || mount_point_exists) ==> (r matches Err(e) && e
                matches Error::MountPointExists(p) && p@ == old(self).path@ && *final(self) == *old(
                self,
            )),
            (!old(self).mounted && !mount_point_exists) ==> (r matches Ok(cmd) && cmd.program@
                == "sshfs"@ && cmd.args.deep_view() =~= seq![
                spec_remote_target(old(self).user@, old(self).host@, ":"@),
                old(self).path@,
            ] && final(self).mounted && final(self).user == old(self).user && final(self).host
                == old(self).host && final(self).path == old(self).path),
    {
        if self.mounted || mount_point_exists {
            return Err(Error::MountPointExists(self.path.clone()));
        }
        let target = remote_target(self.user.as_str(), self.host.as_str(), true);
        let mut args: Vec<String> = Vec::new();
        args.push(target);
        args.push(self.path.clone());
        self.mounted = true;
        let cmd = RemoteCommand { program: String::from_str("sshfs"), args };
        assert(cmd.args.deep_view() =~= seq![
            spec_remote_target(old(self).user@, old(self).host@, ":"@),
            old(self).path@,
        ]);
        Ok(cmd)
    }

    /// Asks to unmount: a no-op when not mounted, else the state
    /// returns to unmounted and the caller runs the returned command
    /// and removes the mount point.
    pub fn unmount(&mut self) -> (r: Option<RemoteCommand>)
        ensures
            old(self).mounted ==> (r matches Some(cmd) && cmd.program@ == "umount"@
                && cmd.args.deep_view() =~= seq![old(self).path@] && !final(self).mounted
                && final(self).user == old(self).user && final(self).host == old(self).host
                && final(self).path == old(self).path),
            !old(self).mounted ==> (r is None && *final(self) == *old(self)),
    {
        if self.mounted {
            self.mounted = false;
            let mut args: Vec<String> = Vec::new();
            args.push(self.path.clone());
            let cmd = RemoteCommand { program: String::from_str("umount"), args };
            assert(cmd.args.deep_view() =~= seq![old(self).path@]);
            Some(cmd)
        } else {
            None
        }
    }

    pub fn mount_point(&self) -> (r: &String)
        ensures
            r@ == self.path@,
    {
        &self.path
    }
}

} // verus!
