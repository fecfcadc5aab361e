//! The `.content` sidecar: page list, display options, and the page
//! transform matrix, with the defaults of a native empty document and
//! the exact JSON rendering.

use crate::textfmt::{
    json_bool, json_str, push_decimal_i32, push_decimal_u64, push_json_bool, push_json_str,
    spec_dec, spec_dec_i32,
};
use vstd::prelude::*;
use vstd::string::StringExecFns;

verus! {

/// The nine cells of the 3-by-3 page transform matrix.
#[derive(Debug, Clone, Copy, PartialEq, Eq)]
pub struct Transform {
    pub m11: i32,
    pub m12: i32,
    pub m13: i32,
    pub m21: i32,
    pub m22: i32,
    pub m23: i32,
    pub m31: i32,
    pub m32: i32,
    pub m33: i32,
}

impl Transform {
    /// The identity matrix, the default of a fresh document.
    pub open spec fn spec_identity() -> Transform {
        (Transform { m11: 1, m12: 0, m13: 0, m21: 0, m22: 1, m23: 0, m31: 0, m32: 0, m33: 1 })
    }

    pub fn identity() -> (t: Transform)
        ensures
            t == Transform::spec_identity(),
    {
        Transform { m11: 1, m12: 0, m13: 0, m21: 0, m22: 1, m23: 0, m31: 0, m32: 0, m33: 1 }
    }
}

#[derive(Debug)]
pub struct Content {
    pub cover_page_number: u32,
    pub dummy_document: bool,
    pub file_type: String,
    pub font_name: String,
    pub line_height: i32,
    pub margins: u32,
    pub orientation: String,
    /// Always the length of `pages`; kept in step by `add_page`.
    pub page_count: usize,
    pub pages: Vec<String>,
    pub text_alignment: String,
    pub text_scale: u32,
    pub transform: Transform,
}

impl Content {
    /// `pageCount` is not independently settable: it always equals the
    /// number of pages.
    pub open spec fn wf(&self) -> bool {
        self.page_count == self.pages@.len()
    }

    /// Appends a page UUID and keeps `pageCount` in step.
    pub fn add_page(&mut self, page: String)
        ensures
            final(self).pages@ == old(self).pages@.push(page),
            final(self).page_count == old(self).pages@.len() + 1,
            final(self).wf(),
            final(self).cover_page_number == old(self).cover_page_number,
            final(self).dummy_document == old(self).dummy_document,
            final(self).file_type == old(self).file_type,
            final(self).font_name == old(self).font_name,
            final(self).line_height == old(self).line_height,
            final(self).margins == old(self).margins,
            final(self).orientation == old(self).orientation,
            final(self).text_alignment == old(self).text_alignment,
            final(self).text_scale == old(self).text_scale,
            final(self).transform == old(self).transform,
    {
        self.pages.push(page);
        self.page_count = self.pages.len();
    }

    /// Writes the sidecar exactly as the device stores it: one JSON
    /// object, no whitespace, keys in this fixed order.
    pub fn to_json(&self) -> (r: String)
        ensures
            r@ == spec_content_json(*self),
    {
        let mut out = String::from_str("{\"coverPageNumber\":");
        push_decimal_u64(&mut out, self.cover_page_number as u64);
        out.append(",\"dummyDocument\":");
        push_json_bool(&mut out, self.dummy_document);
        out.append(",\"extraMetadata\":{},\"fileType\":");
        push_json_str(&mut out, self.file_type.as_str());
        out.append(",\"fontName\":");
        push_json_str(&mut out, self.font_name.as_str());
        out.append(",\"lineHeight\":");
        push_decimal_i32(&mut out, self.line_height);
        out.append(",\"margins\":");
        push_decimal_u64(&mut out, self.margins as u64);
        out.append(",\"orientation\":");
        push_json_str(&mut out, self.orientation.as_str());
        out.append(",\"pageCount\":");
        push_decimal_u64(&mut out, self.page_count as u64);
        out.append(",\"pages\":");
        let pages_part = pages_json(&self.pages);
        out.append(pages_part.as_str());
        out.append(",\"textAlignment\":");
        push_json_str(&mut out, self.text_alignment.as_str());
        out.append(",\"textScale\":");
        push_decimal_u64(&mut out, self.text_scale as u64);
        out.append(",\"transform\":");
        let transform_part = transform_json(&self.transform);
        out.append(transform_part.as_str());
        out.append("}");
        out
    }
}

impl Default for Content {
    /// The content sidecar of a native empty document: no pages yet,
    /// portrait, full margins, identity transform.
    fn default() -> (c: Content)
        ensures
            c.cover_page_number == 0,
            c.dummy_document == false,
            c.file_type@ == "pdf"@,
            c.font_name@ == ""@,
            c.line_height == -1,
            c.margins == 100,
            c.orientation@ == "portrait"@,
            c.page_count == 0,
            c.pages@ =~= Seq::<String>::empty(),
            c.text_alignment@ == "left"@,
            c.text_scale == 1,
            c.transform == Transform::spec_identity(),
            c.wf(),
    {
        proof {
            reveal_strlit("");
        }
        Content {
            cover_page_number: 0,
            dummy_document: false,
            file_type: String::from_str("pdf"),
            font_name: String::new(),
            line_height: -1,
            margins: 100,
            orientation: String::from_str("portrait"),
            page_count: 0,
            pages: Vec::new(),
            text_alignment: String::from_str("left"),
            text_scale: 1,
            transform: Transform::identity(),
        }
    }
}

/// The comma-separated items of a non-empty JSON array of strings.
pub open spec fn spec_pages_items(pages: Seq<Seq<char>>) -> Seq<char>
    decreases pages.len(),
{
    if pages.len() <= 1 {
        if pages.len() == 0 {
            Seq::empty()
        } else {
            json_str(pages[0])
        }
    } else {
        spec_pages_items(pages.drop_last()) + ","@ + json_str(pages.last())
    }
}

/// A JSON array of string literals.
pub open spec fn spec_pages_json(pages: Seq<Seq<char>>) -> Seq<char> {
    "["@ + spec_pages_items(pages) + "]"@
}

fn pages_json(pages: &Vec<String>) -> (r: String)
    ensures
        r@ == spec_pages_json(pages.deep_view()),
{
    let mut out = String::from_str("[");
    let n = pages.len();
    let mut i: usize = 0;
    while i < n
        invariant
            i <= n,
            n == pages@.len(),
            out@ == "["@ + spec_pages_items(pages.deep_view().take(i as int)),
        decreases n - i,
    {
        proof {
            assert(pages.deep_view().len() == n);
            assert(pages.deep_view().take(i + 1).drop_last() =~= pages.deep_view().take(i as int));
            assert(pages.deep_view().take(i + 1).last() == pages.deep_view()[i as int]);
            assert(pages.deep_view()[i as int] == pages@[i as int]@);
        }
        if i > 0 {
            out.append(",");
        }
        push_json_str(&mut out, pages[i].as_str());
        assert(out@ =~= "["@ + spec_pages_items(pages.deep_view().take(i + 1)));
        i = i + 1;
    }
    proof {
        assert(pages.deep_view().take(n as int) =~= pages.deep_view());
    }
    out.append("]");
    out
}

/// The transform matrix as the device writes it.
pub open spec fn spec_transform_json(t: Transform) -> Seq<char> {
    "{\"m11\":"@ + spec_dec_i32(t.m11 as int) + ",\"m12\":"@ + spec_dec_i32(t.m12 as int)
        + ",\"m13\":"@ + spec_dec_i32(t.m13 as int) + ",\"m21\":"@ + spec_dec_i32(t.m21 as int)
        + ",\"m22\":"@ + spec_dec_i32(t.m22 as int) + ",\"m23\":"@ + spec_dec_i32(t.m23 as int)
        + ",\"m31\":"@ + spec_dec_i32(t.m31 as int) + ",\"m32\":"@ + spec_dec_i32(t.m32 as int)
        + ",\"m33\":"@ + spec_dec_i32(t.m33 as int) + "}"@
}

fn transform_json(t: &Transform) -> (r: String)
    ensures
        r@ == spec_transform_json(*t),
{
    let mut out = String::from_str("{\"m11\":");
    push_decimal_i32(&mut out, t.m11);
    out.append(",\"m12\":");
    push_decimal_i32(&mut out, t.m12);
    out.append(",\"m13\":");
    push_decimal_i32(&mut out, t.m13);
    out.append(",\"m21\":");
    push_decimal_i32(&mut out, t.m21);
    out.append(",\"m22\":");
    push_decimal_i32(&mut out, t.m22);
    out.append(",\"m23\":");
    push_decimal_i32(&mut out, t.m23);
    out.append(",\"m31\":");
    push_decimal_i32(&mut out, t.m31);
    out.append(",\"m32\":");
    push_decimal_i32(&mut out, t.m32);
    out.append(",\"m33\":");
    push_decimal_i32(&mut out, t.m33);
    out.append("}");
    out
}

/// The `.content` wire format of `c`. `extraMetadata` is always the
/// empty object: the builder never stores any.
pub open spec fn spec_content_json(c: Content) -> Seq<char> {
    "{\"coverPageNumber\":"@ + spec_dec(c.cover_page_number as nat) + ",\"dummyDocument\":"@
        + json_bool(c.dummy_document) + ",\"extraMetadata\":{},\"fileType\":"@ + json_str(
        c.file_type@,
    ) + ",\"fontName\":"@ + json_str(c.font_name@) + ",\"lineHeight\":"@ + spec_dec_i32(
        c.line_height as int,
    ) + ",\"margins\":"@ + spec_dec(c.margins as nat) + ",\"orientation\":"@ + json_str(
        c.orientation@,
    ) + ",\"pageCount\":"@ + spec_dec(c.page_count as nat) + ",\"pages\":"@ + spec_pages_json(
        c.pages.deep_view(),
    ) + ",\"textAlignment\":"@ + json_str(c.text_alignment@) + ",\"textScale\":"@ + spec_dec(
        c.text_scale as nat,
    ) + ",\"transform\":"@ + spec_transform_json(c.transform) + "}"@
}

} // verus!
