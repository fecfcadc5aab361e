use mrktools::ipdf::{i2pdf, pdf_page_dim_pt_hundredths};
use mrktools::remarkable::create_bare_fs;
use mrktools::Error;

fn is_canonical_uuid(s: &str) -> bool {
    s.len() == 36
        && s.chars().enumerate().all(|(i, c)| {
            if i == 8 || i == 13 || i == 18 || i == 23 {
                c == '-'
            } else {
                c.is_ascii_hexdigit() && !c.is_ascii_uppercase()
            }
        })
}

#[test]
fn bundle_plan_produces_exactly_the_expected_paths() {
    let plan = i2pdf("/tmp/a.png", false, 100, None, "/tmp/out", 1700000000123).unwrap();
    assert!(is_canonical_uuid(&plan.doc_uuid));
    assert!(is_canonical_uuid(&plan.page_uuid));
    let base = format!("/tmp/out/{}", plan.doc_uuid);
    assert_eq!(plan.base, base);
    assert_eq!(
        plan.dirs,
        vec![
            base.clone(),
            format!("{}.highlights", base),
            format!("{}.textconvertion", base),
            format!("{}.thumbnails", base),
        ]
    );
    assert_eq!(plan.pdf_path, format!("{}.pdf", base));
    assert_eq!(plan.content_path, format!("{}.content", base));
    assert_eq!(plan.metadata_path, format!("{}.metadata", base));
    assert_eq!(plan.pagedata_path, format!("{}.pagedata", base));
    assert_eq!(
        plan.thumbnail_path,
        format!("{}.thumbnails/{}.jpg", base, plan.page_uuid)
    );
    assert_eq!(plan.pagedata_text, "Blank\n");
    assert_eq!(
        (plan.thumbnail_width, plan.thumbnail_height, plan.thumbnail_quality),
        (362, 512, 50)
    );
}

#[test]
fn bundle_plan_single_page_consistency() {
    let plan = i2pdf("/tmp/a.png", false, 100, None, "/tmp/out", 1700000000123).unwrap();
    assert_eq!(plan.content.page_count, 1);
    assert_eq!(plan.content.pages, vec![plan.page_uuid.clone()]);
    // The thumbnail is named after the single page.
    let stem = plan
        .thumbnail_path
        .rsplit('/')
        .next()
        .unwrap()
        .strip_suffix(".jpg")
        .unwrap()
        .to_string();
    assert_eq!(stem, plan.content.pages[0]);
    assert!(plan.content_json.contains("\"pageCount\":1"));
    assert!(plan
        .content_json
        .contains(&format!("\"pages\":[\"{}\"]", plan.page_uuid)));
    assert!(plan.content_json.contains("\"fileType\":\"pdf\""));
}

#[test]
fn bundle_plan_metadata_defaults() {
    let plan = i2pdf("/tmp/a.png", false, 100, None, "/tmp/out", 1700000000123).unwrap();
    assert_eq!(plan.metadata.visible_name, "a.png");
    assert_eq!(plan.metadata.parent, "");
    assert_eq!(plan.metadata.typ, "DocumentType");
    assert_eq!(plan.metadata.version, 2);
    assert_eq!(plan.metadata.last_modified, "1700000000123");
    assert_eq!(plan.metadata_json, plan.metadata.to_json());
}

#[test]
fn bundle_plan_with_parent_and_gray() {
    let parent = "dfda01c2-43b2-4ca4-be20-80a6d6c7b183".to_string();
    let plan = i2pdf("pic.jpg", true, 80, Some(&parent), "./rem", 42).unwrap();
    assert_eq!(plan.metadata.parent, parent);
    assert_eq!(plan.metadata.visible_name, "pic.jpg");
    assert_eq!(plan.color, mrktools::ColorTransform::ToGrayscale);
    assert_eq!(plan.alpha, 80);
}

#[test]
fn opacity_out_of_range_plans_nothing() {
    let r = i2pdf("x.png", false, 150, None, "/tmp/out", 1);
    assert_eq!(
        r.map(|_| ()),
        Err(Error::AlphaOutOfRange(150)).map(|_: ()| ())
    );
    let e = i2pdf("x.png", false, 101, None, "/tmp/out", 1).unwrap_err();
    assert_eq!(
        e.message(),
        "Alpha value, 101, out of range, [0..100]"
    );
}

#[test]
fn pdf_page_dims_at_300_dpi() {
    // 900 x 600 pixels at 300 dpi: 216 x 144 points.
    assert_eq!(pdf_page_dim_pt_hundredths(900), 21600);
    assert_eq!(pdf_page_dim_pt_hundredths(600), 14400);
    assert_eq!(pdf_page_dim_pt_hundredths(0), 0);
    assert_eq!(pdf_page_dim_pt_hundredths(1), 24);
}

#[test]
fn bare_fs_layout() {
    let (base, dirs) = create_bare_fs("u-1", "/root/store");
    assert_eq!(base, "/root/store/u-1");
    assert_eq!(
        dirs,
        vec![
            "/root/store/u-1".to_string(),
            "/root/store/u-1.highlights".to_string(),
            "/root/store/u-1.textconvertion".to_string(),
            "/root/store/u-1.thumbnails".to_string(),
        ]
    );
}

#[test]
fn visible_name_falls_back_when_path_has_no_name() {
    let plan = i2pdf("dir/", false, 100, None, "/tmp/out", 1).unwrap();
    assert_eq!(plan.metadata.visible_name, "<null>");
}
