use mrktools::{Content, Metadata};

#[test]
fn content_default_json_matches_device_layout() {
    let c = Content::default();
    let expected = "{\"coverPageNumber\":0,\"dummyDocument\":false,\"extraMetadata\":{},\
\"fileType\":\"pdf\",\"fontName\":\"\",\"lineHeight\":-1,\"margins\":100,\
\"orientation\":\"portrait\",\"pageCount\":0,\"pages\":[],\
\"textAlignment\":\"left\",\"textScale\":1,\
\"transform\":{\"m11\":1,\"m12\":0,\"m13\":0,\"m21\":0,\"m22\":1,\"m23\":0,\
\"m31\":0,\"m32\":0,\"m33\":1}}";
    assert_eq!(c.to_json(), expected);
}

#[test]
fn add_page_keeps_page_count_in_step() {
    let mut c = Content::default();
    assert_eq!(c.page_count, 0);
    c.add_page("dfda01c2-43b2-4ca4-be20-80a6d6c7b183".to_string());
    assert_eq!(c.page_count, 1);
    assert_eq!(c.pages.len(), 1);
    c.add_page("00000000-0000-4000-8000-000000000000".to_string());
    assert_eq!(c.page_count, 2);
    assert_eq!(c.pages.len(), 2);
    let json = c.to_json();
    assert!(json.contains("\"pageCount\":2"));
    assert!(json.contains(
        "\"pages\":[\"dfda01c2-43b2-4ca4-be20-80a6d6c7b183\",\
         \"00000000-0000-4000-8000-000000000000\"]"
    ));
}

#[test]
fn metadata_json_matches_device_layout() {
    let m = Metadata::with_name_and_parent("a.png", "", 1700000000123);
    let expected = "{\"deleted\":false,\"lastModified\":\"1700000000123\",\"lastOpenedPage\":0,\
\"metadatamodified\":false,\"modified\":false,\"parent\":\"\",\"pinned\":false,\
\"synced\":false,\"type\":\"DocumentType\",\"version\":2,\"visibleName\":\"a.png\"}";
    assert_eq!(m.to_json(), expected);
}

#[test]
fn metadata_with_parent_carries_the_folder_uuid() {
    let m = Metadata::with_name_and_parent("b.jpg", "dfda01c2-43b2-4ca4-be20-80a6d6c7b183", 7);
    assert_eq!(m.parent, "dfda01c2-43b2-4ca4-be20-80a6d6c7b183");
    assert_eq!(m.last_modified, "7");
    let json = m.to_json();
    assert!(json.contains("\"parent\":\"dfda01c2-43b2-4ca4-be20-80a6d6c7b183\""));
}

#[test]
fn visible_name_is_escaped_in_json() {
    let m = Metadata::with_name_and_parent("a\"b\\c\nd", "", 1);
    let json = m.to_json();
    assert!(json.contains("\"visibleName\":\"a\\\"b\\\\c\\u000ad\""));
}

#[test]
fn metadata_last_modified_is_a_long_decimal() {
    // Any wall-clock time after 2001 has at least 13 decimal digits.
    let m = Metadata::with_name_and_parent("x", "", 1700000000123);
    assert!(m.last_modified.len() >= 13);
    assert!(m.last_modified.chars().all(|c| c.is_ascii_digit()));
    assert_eq!(m.typ, "DocumentType");
    assert_eq!(m.version, 2);
}
