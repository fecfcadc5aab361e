//! The bundle builder: given a source image path and the upload
//! options, it fixes everything about the new document that does not
//! depend on the decoded pixels — the two fresh UUIDs, every path of
//! the bundle, both sidecars byte for byte, the page template line,
//! and the pipeline settings. The caller then creates the directories,
//! runs the image pipeline, writes the PDF and the thumbnail, and puts
//! each sidecar at its path.

use crate::errors::Error;
use crate::imgtools::ColorTransform;
use crate::remarkable::content::{spec_content_json, Content};
use crate::remarkable::file::{file_name_of, spec_visible_base};
use crate::remarkable::metadata::{spec_metadata_json, Metadata};
use crate::remarkable::{create_bare_fs, with_ext};
use crate::textfmt::spec_dec;
use vstd::prelude::*;
use vstd::string::StringExecFns;

verus! {

/// A lowercase hexadecimal digit.
pub open spec fn is_hex_lower(c: char) -> bool {
    (48 <= c as u32 <= 57) || (97 <= c as u32 <= 102)
}

/// The canonical lowercase hyphenated 8-4-4-4-12 rendering of a UUID.
pub open spec fn is_canonical_uuid(s: Seq<char>) -> bool {
    s.len() == 36 && forall|i: int|
        0 <= i < 36 ==> (if i == 8 || i == 13 || i == 18 || i == 23 {
            s[i] == '-'
        } else {
            is_hex_lower(#[trigger] s[i])
        })
}

/// Relies on `uuid::Uuid::new_v4` and its `Display` rendering: a fresh
/// random v4 UUID, written lowercase with hyphens. The value itself is
/// random; nothing relates two calls.
#[verifier::external_body]
fn new_uuid() -> (r: String)
    ensures
        is_canonical_uuid(r@),
{
    uuid::Uuid::new_v4().to_string()
}

/// Everything about a new bundle that is fixed before any pixel work:
/// where each file and directory goes and what the text files hold.
#[derive(Debug)]
pub struct BundlePlan {
    pub doc_uuid: String,
    pub page_uuid: String,
    /// `dest_root/doc_uuid`, the stem every bundle entry shares.
    pub base: String,
    /// The four directories to create, in creation order.
    pub dirs: Vec<String>,
    pub pdf_path: String,
    pub content: Content,
    pub content_path: String,
    pub content_json: String,
    pub metadata: Metadata,
    pub metadata_path: String,
    pub metadata_json: String,
    pub pagedata_path: String,
    pub pagedata_text: String,
    pub thumbnail_path: String,
    /// The box the thumbnail must fit within: the original decoded
    /// image (not the processed one), aspect ratio preserved, scaled
    /// with the nearest-neighbour filter.
    pub thumbnail_width: u32,
    pub thumbnail_height: u32,
    /// The JPEG quality the thumbnail is encoded at.
    pub thumbnail_quality: u8,
    /// The colour transform the image pipeline must run with.
    pub color: ColorTransform,
    /// The opacity the image pipeline must run with.
    pub alpha: u8,
}

/// What a well-formed plan for the given request looks like.
pub open spec fn plan_wf(
    p: BundlePlan,
    img_path: Seq<char>,
    to_gray: bool,
    alpha: u8,
    parent: Option<Seq<char>>,
    dest_dir: Seq<char>,
    now_ms: u64,
) -> bool {
    &&& is_canonical_uuid(p.doc_uuid@)
    &&& is_canonical_uuid(p.page_uuid@)
    &&& p.base@ == dest_dir + "/"@ + p.doc_uuid@
    &&& p.dirs.deep_view() == seq![
        p.base@,
        p.base@ + ".highlights"@,
        p.base@ + ".textconvertion"@,
        p.base@ + ".thumbnails"@,
    ]
    &&& p.pdf_path@ == p.base@ + ".pdf"@
    &&& p.content_path@ == p.base@ + ".content"@
    &&& p.metadata_path@ == p.base@ + ".metadata"@
    &&& p.pagedata_path@ == p.base@ + ".pagedata"@
    &&& p.thumbnail_path@ == p.base@ + ".thumbnails"@ + "/"@ + p.page_uuid@ + ".jpg"@
    &&& p.content.wf()
    &&& p.content.pages.deep_view() == seq![p.page_uuid@]
    &&& p.content.page_count == 1
    &&& content_defaults(p.content)
    &&& p.content_json@ == spec_content_json(p.content)
    &&& metadata_defaults(p.metadata, now_ms)
    &&& p.metadata.visible_name@ == spec_visible_base(img_path)
    &&& p.metadata.parent@ == (match parent {
        Some(id) => id,
        None => Seq::<char>::empty(),
    })
    &&& p.metadata_json@ == spec_metadata_json(p.metadata)
    &&& p.pagedata_text@ == "Blank\n"@
    &&& p.thumbnail_width == 362
    &&& p.thumbnail_height == 512
    &&& p.thumbnail_quality == 50
    &&& p.color == (if to_gray {
        ColorTransform::ToGrayscale
    } else {
        ColorTransform::Unchanged
    })
    &&& p.alpha == alpha
}

/// The content fields a fresh bundle never changes.
pub open spec fn content_defaults(c: Content) -> bool {
    &&& c.cover_page_number == 0
    &&& c.dummy_document == false
    &&& c.file_type@ == "pdf"@
    &&& c.font_name@.len() == 0
    &&& c.line_height == -1
    &&& c.margins == 100
    &&& c.orientation@ == "portrait"@
    &&& c.text_alignment@ == "left"@
    &&& c.text_scale == 1
    &&& c.transform == crate::remarkable::content::Transform::spec_identity()
}

/// The metadata fields a fresh bundle never changes.
pub open spec fn metadata_defaults(m: Metadata, now_ms: u64) -> bool {
    &&& m.deleted == false
    &&& m.last_modified@ == spec_dec(now_ms as nat)
    &&& m.last_opened_page == 0
    &&& m.metadatamodified == false
    &&& m.modified == false
    &&& m.pinned == false
    &&& m.synced == false
    &&& m.typ@ == "DocumentType"@
    &&& m.version == 2
}

/// What `i2pdf` promises: `AlphaOutOfRange` exactly when the opacity
/// is over 100, else a well-formed plan with two fresh UUIDs.
pub open spec fn i2pdf_post(
    img_path: Seq<char>,
    to_gray: bool,
    alpha: u8,
    parent: Option<Seq<char>>,
    dest_dir: Seq<char>,
    now_ms: u64,
    r: Result<BundlePlan, Error>,
) -> bool {
    if alpha > 100 {
        r matches Err(e) && e matches Error::AlphaOutOfRange(a) && a == alpha
    } else {
        r matches Ok(p) && plan_wf(p, img_path, to_gray, alpha, parent, dest_dir, now_ms)
    }
}

/// Plans one image upload: validates the opacity, draws the document
/// and page UUIDs, and fixes paths, sidecars and pipeline settings.
pub fn i2pdf(
    img_path: &str,
    to_gray: bool,
    alpha: u8,
    parent: Option<&String>,
    dest_dir: &str,
    now_ms: u64,
) -> (r: Result<BundlePlan, Error>)
    ensures
        i2pdf_post(
            img_path@,
            to_gray,
            alpha,
            match parent {
                Some(id) => Some(id@),
                None => None,
            },
            dest_dir@,
            now_ms,
            r,
        ),
{
    if alpha > 100 {
        return Err(Error::AlphaOutOfRange(alpha));
    }
    proof {
        reveal_strlit("");
    }
    let doc_uuid = new_uuid();
    let page_uuid = new_uuid();
    let (base, dirs) = create_bare_fs(doc_uuid.as_str(), dest_dir);

    let mut content = Content::default();
    content.add_page(page_uuid.clone());
    let content_json = content.to_json();
    proof {
        assert(content.pages.deep_view() =~= seq![page_uuid@]);
    }

    let name = file_name_of(img_path);
    let metadata = match parent {
        Some(id) => Metadata::with_name_and_parent(name.as_str(), id.as_str(), now_ms),
        None => {
            proof {
                reveal_strlit("");
            }
            Metadata::with_name_and_parent(name.as_str(), "", now_ms)
        },
    };
    let metadata_json = metadata.to_json();

    let thumbnails_dir = with_ext(&base, ".thumbnails");
    let mut thumbnail_path = with_ext(&thumbnails_dir, "/");
    thumbnail_path.append(page_uuid.as_str());
    thumbnail_path.append(".jpg");

    let color = if to_gray {
        ColorTransform::ToGrayscale
    } else {
        ColorTransform::Unchanged
    };

    let plan = BundlePlan {
        pdf_path: with_ext(&base, ".pdf"),
        content_path: with_ext(&base, ".content"),
        metadata_path: with_ext(&base, ".metadata"),
        pagedata_path: with_ext(&base, ".pagedata"),
        pagedata_text: String::from_str("Blank\n"),
        thumbnail_width: 362,
        thumbnail_height: 512,
        thumbnail_quality: 50,
        doc_uuid,
        page_uuid,
        base,
        dirs,
        content,
        content_json,
        metadata,
        metadata_json,
        thumbnail_path,
        color,
        alpha,
    };
    proof {
        assert(is_canonical_uuid(plan.doc_uuid@));
        assert(is_canonical_uuid(plan.page_uuid@));
        assert(plan.base@ == dest_dir@ + "/"@ + plan.doc_uuid@);
        assert(plan.dirs.deep_view() == seq![
            plan.base@,
            plan.base@ + ".highlights"@,
            plan.base@ + ".textconvertion"@,
            plan.base@ + ".thumbnails"@,
        ]);
        assert(plan.pdf_path@ == plan.base@ + ".pdf"@);
        assert(plan.thumbnail_path@ == plan.base@ + ".thumbnails"@ + "/"@ + plan.page_uuid@
            + ".jpg"@);
        assert(plan.content.wf());
        assert(plan.content.pages.deep_view() == seq![plan.page_uuid@]);
        assert(content_defaults(plan.content));
        assert(plan.content_json@ == spec_content_json(plan.content));
        assert(metadata_defaults(plan.metadata, now_ms));
        assert(plan.metadata.visible_name@ == spec_visible_base(img_path@));
        assert(plan.metadata_json@ == spec_metadata_json(plan.metadata));
        assert(plan.pagedata_text@ == "Blank\n"@);
        assert(plan.content_path@ == plan.base@ + ".content"@);
        assert(plan.metadata_path@ == plan.base@ + ".metadata"@);
        assert(plan.pagedata_path@ == plan.base@ + ".pagedata"@);
        assert(plan.content.page_count == 1);
        assert(plan.metadata.parent@ == (match parent {
            Some(id) => id@,
            None => Seq::<char>::empty(),
        }));
        assert(plan.thumbnail_width == 362 && plan.thumbnail_height == 512
            && plan.thumbnail_quality == 50);
        assert(plan_wf(
            plan,
            img_path@,
            to_gray,
            alpha,
            match parent {
                Some(id) => Some(id@),
                None => None,
            },
            dest_dir@,
            now_ms,
        ));
    }
    Ok(plan)
}

/// Every planned bundle holds exactly one page: `pageCount` and the
/// page list agree at 1, and the single page UUID is the file stem of
/// the one thumbnail file under the `.thumbnails` directory.
pub proof fn lemma_bundle_single_page(
    p: BundlePlan,
    img_path: Seq<char>,
    to_gray: bool,
    alpha: u8,
    parent: Option<Seq<char>>,
    dest_dir: Seq<char>,
    now_ms: u64,
)
    requires
        plan_wf(p, img_path, to_gray, alpha, parent, dest_dir, now_ms),
    ensures
        p.content.page_count == 1,
        p.content.pages.deep_view().len() == 1,
        p.content.pages.deep_view()[0] == p.page_uuid@,
        p.thumbnail_path@ == p.dirs.deep_view()[3] + "/"@ + p.content.pages.deep_view()[0]
            + ".jpg"@,
        crate::remarkable::file::spec_stem(p.thumbnail_path@) == p.content.pages.deep_view()[0],
{
    reveal_strlit(".jpg");
    reveal_strlit("/");
    let t = p.thumbnail_path@;
    let d = p.base@ + ".thumbnails"@;
    let u = p.page_uuid@;
    assert(t =~= d + "/"@ + u + ".jpg"@);
    let start = d.len() + 1;
    assert(t[start - 1] == '/');
    assert forall|j: int| start <= j < t.len() implies t[j] != '/' by {
        if j < start + 36 {
            assert(t[j] == u[j - start]);
            assert(u[j - start] == '-' || is_hex_lower(u[j - start]));
        } else {
            assert(t[j] == ".jpg"@[j - (start + 36)]);
        }
    }
    crate::remarkable::file::lemma_file_name_subrange(t, start as int);
    let name = t.subrange(start as int, t.len() as int);
    assert(name =~= u + ".jpg"@);
    assert(name[36] == '.');
    assert forall|j: int| 36 < j < name.len() implies name[j] != '.' by {
        assert(name[j] == ".jpg"@[j - 36]);
    }
    crate::remarkable::file::lemma_last_dot_found(name, 36);
    assert(name.take(36) =~= u);
}

/// The full set of paths a planned bundle produces under the
/// destination root: the four directories, the one thumbnail, the PDF
/// and the three sidecar files — nothing else.
pub proof fn lemma_bundle_paths(
    p: BundlePlan,
    img_path: Seq<char>,
    to_gray: bool,
    alpha: u8,
    parent: Option<Seq<char>>,
    dest_dir: Seq<char>,
    now_ms: u64,
)
    requires
        plan_wf(p, img_path, to_gray, alpha, parent, dest_dir, now_ms),
    ensures
        p.dirs.deep_view().len() == 4,
        set![
            p.dirs.deep_view()[0],
            p.dirs.deep_view()[1],
            p.dirs.deep_view()[2],
            p.dirs.deep_view()[3],
            p.thumbnail_path@,
            p.pdf_path@,
            p.content_path@,
            p.metadata_path@,
            p.pagedata_path@,
        ] =~= set![
            p.base@,
            p.base@ + ".highlights"@,
            p.base@ + ".textconvertion"@,
            p.base@ + ".thumbnails"@,
            p.base@ + ".thumbnails"@ + "/"@ + p.page_uuid@ + ".jpg"@,
            p.base@ + ".pdf"@,
            p.base@ + ".content"@,
            p.base@ + ".metadata"@,
            p.base@ + ".pagedata"@,
        ],
{
}

/// Every fresh bundle's metadata names a version-2 document, and its
/// `lastModified` is a plain decimal of at least 13 digits whenever
/// the wall clock is past the year 2001 (10^12 milliseconds).
pub proof fn lemma_metadata_fresh_document(m: Metadata, now_ms: u64)
    requires
        metadata_defaults(m, now_ms),
        now_ms >= 1000000000000,
    ensures
        m.typ@ == "DocumentType"@,
        m.version == 2,
        m.last_modified@.len() >= 13,
        forall|i: int|
            0 <= i < m.last_modified@.len() ==> crate::textfmt::is_digit_char(
                #[trigger] m.last_modified@[i],
            ),
{
    crate::textfmt::lemma_spec_dec_digits(now_ms as nat);
    assert(crate::textfmt::pow10(12) == 1000000000000) by {
        reveal_with_fuel(crate::textfmt::pow10, 13);
    }
    crate::textfmt::lemma_spec_dec_len(now_ms as nat, 12);
}

/// One page dimension in hundredths of a PostScript point for a pixel
/// count rendered at 300 dots per inch: `px * 72 / 300` points, which
/// is exactly `24 * px` hundredths.
pub fn pdf_page_dim_pt_hundredths(px: u32) -> (r: u64)
    ensures
        r == px * 24,
        r * 300 == px * 7200,
{
    (px as u64) * 24
}

} // verus!
