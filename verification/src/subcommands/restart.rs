//! The `restart` subcommand: ask the device to restart its document
//! manager.

use crate::remarkable::connection::Connection;
use crate::remarkable::sshfs::{spec_remote_target, RemoteCommand};
use vstd::prelude::*;

verus! {

/// `restart` takes no further arguments.
#[derive(Debug, Default, Clone, Copy, PartialEq, Eq)]
pub struct RestartArgs {}

/// The command the caller must run on the remote host to restart the
/// document manager; its output is not inspected.
pub fn restart(conn: &Connection, args: RestartArgs) -> (cmd: RemoteCommand)
    ensures
        cmd.program@ == "ssh"@,
        cmd.args.deep_view() =~= seq![
            spec_remote_target(conn.user@, conn.host@, Seq::empty()),
            "systemctl"@,
            "restart"@,
            "xochitl"@,
        ],
{
    conn.restart()
}

} // verus!
