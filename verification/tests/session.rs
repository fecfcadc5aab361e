use mrktools::{Connection, Error, SshFsMount};

#[test]
fn mount_conflict_is_refused_before_any_work() {
    let r = Connection::connect("root", "192.168.86.31", "/tmp/rmk", true);
    match r {
        Err(Error::MountPointExists(p)) => {
            assert_eq!(p, "/tmp/rmk");
        }
        other => panic!("expected MountPointExists, got {:?}", other.map(|_| ())),
    }
    let e = Error::MountPointExists("/tmp/rmk".to_string());
    assert_eq!(e.message(), "The mount point, '/tmp/rmk', already exists.");
}

#[test]
fn connect_produces_the_sshfs_command() {
    let (conn, cmd) = Connection::connect("root", "192.168.86.31", "/tmp/rmk", false).unwrap();
    assert_eq!(cmd.program, "sshfs");
    assert_eq!(cmd.args, vec!["root@192.168.86.31:".to_string(), "/tmp/rmk".to_string()]);
    assert_eq!(conn.mount_point(), "/tmp/rmk");
    assert_eq!(conn.data_dir(), "/tmp/rmk/.local/share/remarkable/xochitl");
}

#[test]
fn restart_command_is_fire_and_forget() {
    let (conn, _) = Connection::connect("root", "host", "/tmp/rmk", false).unwrap();
    let cmd = mrktools::subcommands::restart::restart(
        &conn,
        mrktools::subcommands::restart::RestartArgs {},
    );
    assert_eq!(cmd.program, "ssh");
    assert_eq!(
        cmd.args,
        vec![
            "root@host".to_string(),
            "systemctl".to_string(),
            "restart".to_string(),
            "xochitl".to_string(),
        ]
    );
}

#[test]
fn mount_state_machine() {
    let mut m = SshFsMount::new("root", "host", "/tmp/rmk");
    assert!(!m.mounted);
    // Unmount before mounting is a no-op.
    assert!(m.unmount().is_none());
    let cmd = m.mount(false).unwrap();
    assert_eq!(cmd.program, "sshfs");
    assert!(m.mounted);
    // Mounting twice is an error.
    assert!(matches!(m.mount(false), Err(Error::MountPointExists(_))));
    let un = m.unmount().unwrap();
    assert_eq!(un.program, "umount");
    assert_eq!(un.args, vec!["/tmp/rmk".to_string()]);
    assert!(!m.mounted);
    // Unmount is idempotent.
    assert!(m.unmount().is_none());
}

#[test]
fn mount_refused_when_point_exists() {
    let mut m = SshFsMount::new("root", "host", "/tmp/elsewhere");
    match m.mount(true) {
        Err(Error::MountPointExists(p)) => assert_eq!(p, "/tmp/elsewhere"),
        other => panic!("expected MountPointExists, got {:?}", other),
    }
    assert!(!m.mounted);
}
