use mrktools::subcommands::ipdf::{ipdf, IPdfArgs};
use mrktools::{ColorTransform, Connection, Error, File, Metadata};

fn folder(path: &str, name: &str) -> File {
    File::load(
        path.to_string(),
        Some(Metadata {
            deleted: false,
            last_modified: "1700000000123".to_string(),
            last_opened_page: 0,
            metadatamodified: false,
            modified: false,
            parent: "".to_string(),
            pinned: false,
            synced: false,
            typ: "CollectionType".to_string(),
            version: 2,
            visible_name: name.to_string(),
        }),
    )
}

fn conn_with(files: Vec<File>) -> Connection {
    let (mut conn, _) = Connection::connect("root", "host", "/tmp/rmk", false).unwrap();
    conn.load_files(files);
    conn
}

#[test]
fn ipdf_plans_every_file_under_the_resolved_folder() {
    let u = "dfda01c2-43b2-4ca4-be20-80a6d6c7b183";
    let conn = conn_with(vec![folder(&format!("/store/{}.metadata", u), "To Draw")]);
    let opt = IPdfArgs {
        alpha: 100,
        to_gray: true,
        file_names: vec!["a.png".to_string(), "b.png".to_string()],
        parent: Some("To Draw".to_string()),
        dest_dir: "/tmp/out".to_string(),
    };
    let plans = ipdf(&conn, &opt, 1700000000123).unwrap();
    assert_eq!(plans.len(), 2);
    let first = plans[0].as_ref().unwrap();
    let second = plans[1].as_ref().unwrap();
    assert_eq!(first.metadata.parent, u);
    assert_eq!(second.metadata.parent, u);
    assert_eq!(first.metadata.visible_name, "a.png");
    assert_eq!(second.metadata.visible_name, "b.png");
    assert_eq!(first.color, ColorTransform::ToGrayscale);
    assert_ne!(first.doc_uuid, second.doc_uuid);
}

#[test]
fn ipdf_aborts_when_the_parent_is_missing() {
    let conn = conn_with(vec![]);
    let opt = IPdfArgs {
        alpha: 100,
        to_gray: false,
        file_names: vec!["a.png".to_string()],
        parent: Some("Missing".to_string()),
        dest_dir: "/tmp/out".to_string(),
    };
    match ipdf(&conn, &opt, 1) {
        Err(Error::FolderNotFound(n)) => assert_eq!(n, "Missing"),
        other => panic!("expected FolderNotFound, got {:?}", other.map(|_| ())),
    }
}

#[test]
fn ipdf_keeps_going_after_a_bad_opacity() {
    let conn = conn_with(vec![]);
    let opt = IPdfArgs {
        alpha: 150,
        to_gray: false,
        file_names: vec!["a.png".to_string(), "b.png".to_string()],
        parent: None,
        dest_dir: "/tmp/out".to_string(),
    };
    let plans = ipdf(&conn, &opt, 1).unwrap();
    assert_eq!(plans.len(), 2);
    for plan in plans {
        assert_eq!(plan.unwrap_err(), Error::AlphaOutOfRange(150));
    }
}
