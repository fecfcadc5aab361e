//! The `.metadata` sidecar: the fields the device expects, with the
//! defaults a freshly created document must carry, and its exact JSON
//! rendering (compact, keys in the device's order).

use crate::textfmt::{
    json_bool, json_str, push_decimal_u64, push_json_bool, push_json_str, spec_dec,
};
use vstd::prelude::*;
use vstd::string::StringExecFns;

verus! {

#[derive(Debug, Clone)]
pub struct Metadata {
    pub deleted: bool,
    /// Wall-clock time of creation, in milliseconds since the Unix
    /// epoch, rendered as a decimal string.
    pub last_modified: String,
    pub last_opened_page: u32,
    pub metadatamodified: bool,
    pub modified: bool,
    /// Empty for a document at the device root, else the UUID of a
    /// collection entry.
    pub parent: String,
    pub pinned: bool,
    pub synced: bool,
    /// `"DocumentType"` for documents, `"CollectionType"` for folders.
    pub typ: String,
    pub version: u32,
    pub visible_name: String,
}

impl Metadata {
    /// A fresh document entry: every field at its device default, the
    /// name and parent as requested, and `lastModified` the given
    /// wall-clock milliseconds.
    pub fn with_name_and_parent(name: &str, parent: &str, now_ms: u64) -> (m: Metadata)
        ensures
            m.deleted == false,
            m.last_modified@ == spec_dec(now_ms as nat),
            m.last_opened_page == 0,
            m.metadatamodified == false,
            m.modified == false,
            m.parent@ == parent@,
            m.pinned == false,
            m.synced == false,
            m.typ@ == "DocumentType"@,
            m.version == 2,
            m.visible_name@ == name@,
    {
        let mut last_modified = String::new();
        push_decimal_u64(&mut last_modified, now_ms);
        Metadata {
            deleted: false,
            last_modified,
            last_opened_page: 0,
            metadatamodified: false,
            modified: false,
            parent: parent.to_owned(),
            pinned: false,
            synced: false,
            typ: String::from_str("DocumentType"),
            version: 2,
            visible_name: name.to_owned(),
        }
    }

    /// Writes the sidecar exactly as the device stores it: one JSON
    /// object, no whitespace, keys in this fixed order.
    pub fn to_json(&self) -> (r: String)
        ensures
            r@ == spec_metadata_json(*self),
    {
        let mut out = String::from_str("{\"deleted\":");
        push_json_bool(&mut out, self.deleted);
        out.append(",\"lastModified\":");
        push_json_str(&mut out, self.last_modified.as_str());
        out.append(",\"lastOpenedPage\":");
        push_decimal_u64(&mut out, self.last_opened_page as u64);
        out.append(",\"metadatamodified\":");
        push_json_bool(&mut out, self.metadatamodified);
        out.append(",\"modified\":");
        push_json_bool(&mut out, self.modified);
        out.append(",\"parent\":");
        push_json_str(&mut out, self.parent.as_str());
        out.append(",\"pinned\":");
        push_json_bool(&mut out, self.pinned);
        out.append(",\"synced\":");
        push_json_bool(&mut out, self.synced);
        out.append(",\"type\":");
        push_json_str(&mut out, self.typ.as_str());
        out.append(",\"version\":");
        push_decimal_u64(&mut out, self.version as u64);
        out.append(",\"visibleName\":");
        push_json_str(&mut out, self.visible_name.as_str());
        out.append("}");
        out
    }
}

/// The `.metadata` wire format of `m`.
pub open spec fn spec_metadata_json(m: Metadata) -> Seq<char> {
    "{\"deleted\":"@ + json_bool(m.deleted) + ",\"lastModified\":"@ + json_str(m.last_modified@)
        + ",\"lastOpenedPage\":"@ + spec_dec(m.last_opened_page as nat) + ",\"metadatamodified\":"@
        + json_bool(m.metadatamodified) + ",\"modified\":"@ + json_bool(m.modified) + ",\"parent\":"@
        + json_str(m.parent@) + ",\"pinned\":"@ + json_bool(m.pinned) + ",\"synced\":"@ + json_bool(
        m.synced,
    ) + ",\"type\":"@ + json_str(m.typ@) + ",\"version\":"@ + spec_dec(m.version as nat)
        + ",\"visibleName\":"@ + json_str(m.visible_name@) + "}"@
}

} // verus!
