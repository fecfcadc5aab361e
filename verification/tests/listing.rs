use mrktools::remarkable::file::is_metadata_path;
use mrktools::subcommands::copier::{copy, CopierArgs};
use mrktools::subcommands::ls::{ls, LsArgs};
use mrktools::tester::MyStruct;
use mrktools::{Connection, Error, File, Metadata};

fn meta(typ: &str, name: &str, parent: &str) -> Metadata {
    Metadata {
        deleted: false,
        last_modified: "1700000000123".to_string(),
        last_opened_page: 0,
        metadatamodified: false,
        modified: false,
        parent: parent.to_string(),
        pinned: false,
        synced: false,
        typ: typ.to_string(),
        version: 2,
        visible_name: name.to_string(),
    }
}

fn store_conn(files: Vec<File>) -> Connection {
    let (mut conn, _) = Connection::connect("root", "host", "/tmp/rmk", false).unwrap();
    conn.load_files(files);
    conn
}

#[test]
fn resolver_finds_the_folder_uuid() {
    let u = "dfda01c2-43b2-4ca4-be20-80a6d6c7b183";
    let conn = store_conn(vec![File::load(
        format!("/store/{}.metadata", u),
        Some(meta("CollectionType", "To Draw", "")),
    )]);
    assert_eq!(conn.find_folder("To Draw").unwrap(), u);
    match conn.find_folder("Missing") {
        Err(Error::FolderNotFound(n)) => assert_eq!(n, "Missing"),
        other => panic!("expected FolderNotFound, got {:?}", other),
    }
}

#[test]
fn resolver_returns_only_collections() {
    // A document with the right name is not a folder.
    let conn = store_conn(vec![
        File::load(
            "/store/1111-doc.metadata".to_string(),
            Some(meta("DocumentType", "To Draw", "")),
        ),
        File::load(
            "/store/2222-dir.metadata".to_string(),
            Some(meta("CollectionType", "To Draw", "")),
        ),
    ]);
    assert_eq!(conn.find_folder("To Draw").unwrap(), "2222-dir");
}

#[test]
fn resolver_takes_the_first_match_and_skips_bad_entries() {
    let conn = store_conn(vec![
        File::load("/store/broken.metadata".to_string(), None),
        File::load(
            "/store/aaa.metadata".to_string(),
            Some(meta("CollectionType", "Books", "")),
        ),
        File::load(
            "/store/bbb.metadata".to_string(),
            Some(meta("CollectionType", "Books", "")),
        ),
    ]);
    assert_eq!(conn.find_folder("Books").unwrap(), "aaa");
}

#[test]
fn resolver_name_matching_is_exact() {
    let conn = store_conn(vec![File::load(
        "/store/aaa.metadata".to_string(),
        Some(meta("CollectionType", "Books", "")),
    )]);
    assert!(conn.find_folder("books").is_err());
    assert!(conn.find_folder("Book").is_err());
}

#[test]
fn file_entry_accessors() {
    let f = File::load(
        "/a/b/c-uuid.metadata".to_string(),
        Some(meta("DocumentType", "Picture", "")),
    );
    assert_eq!(f.id(), "c-uuid");
    assert_eq!(f.visible_name().unwrap(), "Picture");

    let broken = File::load("/a/b/bad.metadata".to_string(), None);
    match broken.visible_name() {
        Err(Error::FileFailedToLoad(p)) => assert_eq!(p, "/a/b/bad.metadata"),
        other => panic!("expected FileFailedToLoad, got {:?}", other),
    }

    // A name that is nothing but its leading dot keeps it.
    let dotted = File::load(".metadata".to_string(), None);
    assert_eq!(dotted.id(), ".metadata");
    // No segment at all.
    let empty = File::load("dir/".to_string(), None);
    assert_eq!(empty.id(), "<null>");
}

#[test]
fn ls_prints_a_sorted_indented_tree() {
    let conn = store_conn(vec![
        File::load(
            "/store/f1.metadata".to_string(),
            Some(meta("CollectionType", "Books", "")),
        ),
        File::load(
            "/store/d2.metadata".to_string(),
            Some(meta("DocumentType", "Zebra", "")),
        ),
        File::load(
            "/store/d3.metadata".to_string(),
            Some(meta("DocumentType", "Alpha", "")),
        ),
        File::load(
            "/store/d4.metadata".to_string(),
            Some(meta("DocumentType", "Inside", "f1")),
        ),
        File::load("/store/broken.metadata".to_string(), None),
    ]);
    let lines = ls(&conn, LsArgs {});
    assert_eq!(
        lines,
        vec![
            "Alpha".to_string(),
            "Books/".to_string(),
            "   Inside".to_string(),
            "Zebra".to_string(),
        ]
    );
}

#[test]
fn ls_sorts_nested_levels_too() {
    let conn = store_conn(vec![
        File::load(
            "/store/f1.metadata".to_string(),
            Some(meta("CollectionType", "Folder", "")),
        ),
        File::load(
            "/store/f2.metadata".to_string(),
            Some(meta("CollectionType", "Deeper", "f1")),
        ),
        File::load(
            "/store/d1.metadata".to_string(),
            Some(meta("DocumentType", "Bottom", "f2")),
        ),
        File::load(
            "/store/d2.metadata".to_string(),
            Some(meta("DocumentType", "Apple", "f1")),
        ),
    ]);
    let lines = ls(&conn, LsArgs {});
    assert_eq!(
        lines,
        vec![
            "Folder/".to_string(),
            "   Apple".to_string(),
            "   Deeper/".to_string(),
            "      Bottom".to_string(),
        ]
    );
}

#[test]
fn ls_of_an_empty_store_is_empty() {
    let conn = store_conn(vec![]);
    assert_eq!(ls(&conn, LsArgs {}), Vec::<String>::new());
}

#[test]
fn copy_maps_files_under_the_destination() {
    let conn = store_conn(vec![]);
    let args = CopierArgs {
        src: "/data/in".to_string(),
        dest: Some("/data/out".to_string()),
    };
    let files = vec![
        "/data/in/a.txt".to_string(),
        "/data/in/sub/b.txt".to_string(),
        "/data/in".to_string(),
    ];
    let dests = copy(&conn, &args, &files).unwrap();
    assert_eq!(
        dests,
        vec![
            "/data/out/a.txt".to_string(),
            "/data/out/sub/b.txt".to_string(),
            "/data/out".to_string(),
        ]
    );
}

#[test]
fn copy_defaults_to_the_document_store() {
    let conn = store_conn(vec![]);
    let args = CopierArgs {
        src: "/data/in".to_string(),
        dest: None,
    };
    let files = vec!["/data/in/a".to_string()];
    let dests = copy(&conn, &args, &files).unwrap();
    assert_eq!(
        dests,
        vec!["/tmp/rmk/.local/share/remarkable/xochitl/a".to_string()]
    );
}

#[test]
fn copy_rejects_files_outside_the_source() {
    let conn = store_conn(vec![]);
    let args = CopierArgs {
        src: "/data/in".to_string(),
        dest: Some("/data/out".to_string()),
    };
    let files = vec!["/data/inside/a".to_string()];
    match copy(&conn, &args, &files) {
        Err(Error::PathPrefix(p)) => assert_eq!(p, "/data/inside/a"),
        other => panic!("expected PathPrefix, got {:?}", other),
    }
}

#[test]
fn metadata_sidecars_are_recognised_by_extension() {
    assert!(is_metadata_path("/store/dfda01c2.metadata"));
    assert!(is_metadata_path("x.metadata"));
    assert!(is_metadata_path("a.b.metadata"));
    assert!(!is_metadata_path("/store/dfda01c2.content"));
    assert!(!is_metadata_path("metadata"));
    // A name that is nothing but a leading dot has no extension.
    assert!(!is_metadata_path(".metadata"));
    // Only the last segment counts.
    assert!(!is_metadata_path("/a.metadata/c"));
}

#[test]
fn tester_values_are_readable() {
    let m = MyStruct::new();
    assert_eq!(m.value1().unwrap(), "TESTER");
    assert_eq!(m.value2().unwrap(), 56);
}
