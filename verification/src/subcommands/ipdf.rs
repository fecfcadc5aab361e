//! The `ipdf` subcommand: turn each named image into a document
//! bundle. The library resolves the parent folder and plans every
//! bundle; the caller decodes, converts and writes, one file at a
//! time, logging per-file failures and carrying on.

use crate::errors::Error;
use crate::ipdf::{i2pdf, i2pdf_post, BundlePlan};
use crate::remarkable::connection::{find_folder_post, folder_resolves_to, Connection};
use vstd::prelude::*;

verus! {

#[derive(Debug)]
pub struct IPdfArgs {
    /// Opacity in `[0, 100]`; `100` is opaque.
    pub alpha: u8,
    /// Convert the image to grayscale first.
    pub to_gray: bool,
    /// The images to convert, in order.
    pub file_names: Vec<String>,
    /// Visible name of the folder on the device to file the documents
    /// under; the device root when absent.
    pub parent: Option<String>,
    /// The staging directory the bundles are written to.
    pub dest_dir: String,
}

/// Plans one bundle per named file. Resolving the parent folder fails
/// the whole run; each file's own plan may fail (`AlphaOutOfRange`)
/// without touching its neighbours, exactly as `i2pdf_post` says.
pub fn ipdf(conn: &Connection, opt: &IPdfArgs, now_ms: u64) -> (r: Result<
    Vec<Result<BundlePlan, Error>>,
    Error,
>)
    requires
        conn.lazy_files is Some,
    ensures
        ({
            let files = conn.lazy_files->0;
            match r {
                Ok(plans) => plans@.len() == opt.file_names@.len() && (match opt.parent {
                    None => forall|i: int|
                        0 <= i < plans@.len() ==> i2pdf_post(
                            opt.file_names@[i]@,
                            opt.to_gray,
                            opt.alpha,
                            Option::None,
                            opt.dest_dir@,
                            now_ms,
                            #[trigger] plans@[i],
                        ),
                    Some(p) => exists|id: Seq<char>|
                        #[trigger] folder_resolves_to(files@, p@, id) && (forall|i: int|
                            0 <= i < plans@.len() ==> i2pdf_post(
                                opt.file_names@[i]@,
                                opt.to_gray,
                                opt.alpha,
                                Some(id),
                                opt.dest_dir@,
                                now_ms,
                                #[trigger] plans@[i],
                            )),
                }),
                Err(e) => opt.parent matches Some(p) && find_folder_post(files@, p@, Err(e)),
            }
        }),
{
    let parent_id: Option<String> = match &opt.parent {
        Some(p) => {
            match conn.find_folder(p.as_str()) {
                Ok(id) => Some(id),
                Err(e) => {
                    return Err(e);
                },
            }
        },
        None => None,
    };
    let n = opt.file_names.len();
    let mut plans: Vec<Result<BundlePlan, Error>> = Vec::new();
    let mut i: usize = 0;
    while i < n
        invariant
            i <= n,
            n == opt.file_names@.len(),
            plans@.len() == i,
            match opt.parent {
                None => parent_id is None,
                Some(p) => parent_id matches Some(id) && folder_resolves_to(
                    conn.lazy_files->0@,
                    p@,
                    id@,
                ),
            },
            forall|j: int|
                0 <= j < i ==> i2pdf_post(
                    opt.file_names@[j]@,
                    opt.to_gray,
                    opt.alpha,
                    match parent_id {
                        Some(id) => Some(id@),
                        None => Option::None,
                    },
                    opt.dest_dir@,
                    now_ms,
                    #[trigger] plans@[j],
                ),
        decreases n - i,
    {
        let plan = i2pdf(
            opt.file_names[i].as_str(),
            opt.to_gray,
            opt.alpha,
            parent_id.as_ref(),
            opt.dest_dir.as_str(),
            now_ms,
        );
        plans.push(plan);
        i = i + 1;
    }
    Ok(plans)
}

} // verus!
