//! Error kinds surfaced to the user.

use crate::textfmt::spec_dec;
use vstd::prelude::*;
use vstd::string::StringExecFns;

verus! {

/// Everything that can go wrong inside the library's own logic.
///
/// Failures of the surrounding machinery (file system, PDF writer,
/// image decoder) never reach these variants; they are handled by the
/// caller that performs the actual input and output.
#[derive(Debug, Clone, PartialEq, Eq)]
pub enum Error {
    /// The requested opacity is not in `[0, 100]`.
    AlphaOutOfRange(u8),
    /// No folder with the requested visible name exists on the device.
    FolderNotFound(String),
    /// The directory chosen as a mount point already exists.
    MountPointExists(String),
    /// A metadata sidecar could not be parsed.
    FileFailedToLoad(String),
    /// The decoded image uses a pixel layout the pipeline does not handle.
    UnsupportedPixelFormat,
    /// A path was expected to sit under a given root but does not.
    PathPrefix(String),
}

/// The user-facing wording of each error.
pub open spec fn spec_message(e: Error) -> Seq<char> {
    match e {
        Error::AlphaOutOfRange(n) => "Alpha value, "@ + spec_dec(n as nat)
            + ", out of range, [0..100]"@,
        Error::FolderNotFound(n) => "The folder, "@ + n@ + ", was not found on the Remarkable"@,
        Error::MountPointExists(p) => "The mount point, '"@ + p@ + "', already exists."@,
        Error::FileFailedToLoad(p) => "The file at "@ + p@ + " failed to load"@,
        Error::UnsupportedPixelFormat => "Unsupported pixel format"@,
        Error::PathPrefix(p) => "The path "@ + p@ + " is not under the source directory"@,
    }
}

impl Error {
    /// Renders the error for the user, as `spec_message` says.
    pub fn message(&self) -> (r: String)
        ensures
            r@ == spec_message(*self),
    {
        match self {
            Error::AlphaOutOfRange(n) => {
                let mut out = String::from_str("Alpha value, ");
                crate::textfmt::push_decimal_u64(&mut out, *n as u64);
                out.append(", out of range, [0..100]");
                out
            },
            Error::FolderNotFound(n) => {
                let mut out = String::from_str("The folder, ");
                out.append(n.as_str());
                out.append(", was not found on the Remarkable");
                out
            },
            Error::MountPointExists(p) => {
                let mut out = String::from_str("The mount point, '");
                out.append(p.as_str());
                out.append("', already exists.");
                out
            },
            Error::FileFailedToLoad(p) => {
                let mut out = String::from_str("The file at ");
                out.append(p.as_str());
                out.append(" failed to load");
                out
            },
            Error::UnsupportedPixelFormat => String::from_str("Unsupported pixel format"),
            Error::PathPrefix(p) => {
                let mut out = String::from_str("The path ");
                out.append(p.as_str());
                out.append(" is not under the source directory");
                out
            },
        }
    }
}

} // verus!
