//! The pasteboard reader: priority-ordered classification.
//!
//! One look at the live pasteboard is captured as a [`PasteboardSnapshot`] of
//! plain values — which type identifiers the pasteboard declared, and what
//! each extractor handed back. [`build_item`] turns a snapshot into at most
//! one normalized item by a fixed probe order: file paths first, then images
//! (PNG preferred over TIFF), then HTML as a secondary attachment, then rich
//! text, then plain text with URL detection. A declared type whose extraction
//! yielded nothing is skipped and control falls through to the next probe.

use vstd::prelude::*;
use vstd::string::StringExecFns;

use crate::types::ClipboardContentType;
use crate::types::ItemModel;
use crate::types::NativeClipboardItem;
use crate::types::strs_view;
use crate::types::view_opt_bytes;
use crate::types::view_opt_str;
use crate::types::view_opt_str_list;
use crate::urls::detect_urls;
use crate::urls::trim_of;
use crate::urls::trimmed_eq;
use crate::urls::url_matches;

verus! {

/// The raw outcome of one look at the system pasteboard, as plain values: the
/// declared-type flags say which content types the pasteboard advertised, and
/// each payload field holds what the corresponding extractor returned —
/// `None` when it yielded nothing. The embedder that owns the live pasteboard
/// handle fills one of these; classification itself happens in
/// [`build_item`].
pub struct PasteboardSnapshot {
    /// The pasteboard declared a file-reference type.
    pub has_file_url_type: bool,
    /// The pasteboard declared a PNG image type.
    pub has_png_type: bool,
    /// The pasteboard declared a TIFF image type.
    pub has_tiff_type: bool,
    /// The pasteboard declared an HTML type.
    pub has_html_type: bool,
    /// The pasteboard declared an RTF type.
    pub has_rtf_type: bool,
    /// The pasteboard declared a UTF-8 plain-text type.
    pub has_text_type: bool,
    /// Bundle identifier of the frontmost application, when resolvable.
    pub source_app_bundle_id: Option<String>,
    /// Display name of the frontmost application, when resolvable.
    pub source_app_name: Option<String>,
    /// Filesystem paths read from the file-reference representation.
    pub file_paths: Option<Vec<String>>,
    /// Raw bytes of the PNG representation.
    pub png_data: Option<Vec<u8>>,
    /// Raw bytes of the TIFF representation.
    pub tiff_data: Option<Vec<u8>>,
    /// The HTML representation.
    pub html_data: Option<String>,
    /// The RTF representation.
    pub rtf_data: Option<String>,
    /// The plain-text representation.
    pub plain_text: Option<String>,
}

/// Mathematical model of a [`PasteboardSnapshot`].
#[verifier::ext_equal]
pub ghost struct SnapModel {
    pub has_file_url_type: bool,
    pub has_png_type: bool,
    pub has_tiff_type: bool,
    pub has_html_type: bool,
    pub has_rtf_type: bool,
    pub has_text_type: bool,
    pub source_app_bundle_id: Option<Seq<char>>,
    pub source_app_name: Option<Seq<char>>,
    pub file_paths: Option<Seq<Seq<char>>>,
    pub png_data: Option<Seq<u8>>,
    pub tiff_data: Option<Seq<u8>>,
    pub html_data: Option<Seq<char>>,
    pub rtf_data: Option<Seq<char>>,
    pub plain_text: Option<Seq<char>>,
}

impl View for PasteboardSnapshot {
    type V = SnapModel;

    open spec fn view(&self) -> SnapModel {
        SnapModel {
            has_file_url_type: self.has_file_url_type,
            has_png_type: self.has_png_type,
            has_tiff_type: self.has_tiff_type,
            has_html_type: self.has_html_type,
            has_rtf_type: self.has_rtf_type,
            has_text_type: self.has_text_type,
            source_app_bundle_id: view_opt_str(self.source_app_bundle_id),
            source_app_name: view_opt_str(self.source_app_name),
            file_paths: view_opt_str_list(self.file_paths),
            png_data: view_opt_bytes(self.png_data),
            tiff_data: view_opt_bytes(self.tiff_data),
            html_data: view_opt_str(self.html_data),
            rtf_data: view_opt_str(self.rtf_data),
            plain_text: view_opt_str(self.plain_text),
        }
    }
}

/// The file branch fires: a file-reference type was declared and extraction
/// yielded at least one path. It precedes every other probe and returns
/// immediately.
pub open spec fn file_fires(s: SnapModel) -> bool {
    &&& s.has_file_url_type
    &&& s.file_paths matches Some(p) && p.len() > 0
}

/// PNG extraction yielded bytes.
pub open spec fn png_yields(s: SnapModel) -> bool {
    s.png_data matches Some(d) && d.len() > 0
}

/// TIFF extraction yielded bytes.
pub open spec fn tiff_yields(s: SnapModel) -> bool {
    s.tiff_data matches Some(d) && d.len() > 0
}

/// The image branch fires: an image type was declared and PNG or TIFF
/// extraction yielded bytes, PNG tried first.
pub open spec fn image_fires(s: SnapModel) -> bool {
    (s.has_png_type || s.has_tiff_type) && (png_yields(s) || tiff_yields(s))
}

/// The HTML attachment: HTML is never the deciding tag, only carried along
/// when declared and extracted.
pub open spec fn html_attached(s: SnapModel) -> Option<Seq<char>> {
    if s.has_html_type && s.html_data is Some {
        s.html_data
    } else {
        None
    }
}

/// The RTF probe succeeds: an RTF type was declared and extraction yielded a
/// string.
pub open spec fn rtf_fires(s: SnapModel) -> bool {
    s.has_rtf_type && s.rtf_data is Some
}

/// The plain-text probe succeeds: a plain-text type was declared and
/// extraction yielded text.
pub open spec fn text_fires(s: SnapModel) -> bool {
    s.has_text_type && s.plain_text is Some
}

/// Some branch produces an item: exactly when reading the snapshot returns
/// `Some`.
pub open spec fn classifies(s: SnapModel) -> bool {
    file_fires(s) || image_fires(s) || text_fires(s) || rtf_fires(s)
}

/// The item every read starts from: fresh identity, `Unknown` tag, source
/// metadata attached best-effort, every payload field absent.
pub open spec fn empty_item(s: SnapModel, id: Seq<char>, ts: Seq<char>) -> ItemModel {
    ItemModel {
        id: id,
        content_type: ClipboardContentType::Unknown,
        created_at: ts,
        source_app_bundle_id: s.source_app_bundle_id,
        source_app_name: s.source_app_name,
        plain_text: None,
        rtf_data: None,
        html_data: None,
        image_data: None,
        image_width: None,
        image_height: None,
        image_format: None,
        file_paths: None,
        detected_urls: None,
    }
}

/// The normalized item a snapshot classifies to, if any: the whole
/// priority-ordered probe sequence in one place. The returned tag is decided
/// by `File > Image > (Link overriding Text) > Text > RichText-without-text`;
/// HTML only ever rides along. Image dimensions are never populated.
pub open spec fn spec_build(s: SnapModel, id: Seq<char>, ts: Seq<char>) -> Option<ItemModel> {
    let base = empty_item(s, id, ts);
    if file_fires(s) {
        Some(
            ItemModel {
                content_type: ClipboardContentType::File,
                file_paths: s.file_paths,
                ..base
            },
        )
    } else if image_fires(s) {
        Some(
            ItemModel {
                content_type: ClipboardContentType::Image,
                image_data: if png_yields(s) {
                    s.png_data
                } else {
                    s.tiff_data
                },
                image_format: Some(if png_yields(s) {
                    "png"@
                } else {
                    "tiff"@
                }),
                ..base
            },
        )
    } else {
        let staged = ItemModel {
            html_data: html_attached(s),
            rtf_data: if rtf_fires(s) {
                s.rtf_data
            } else {
                None
            },
            content_type: if rtf_fires(s) {
                ClipboardContentType::RichText
            } else {
                ClipboardContentType::Unknown
            },
            ..base
        };
        if text_fires(s) {
            let text = s.plain_text->Some_0;
            let urls = url_matches(text);
            Some(
                ItemModel {
                    plain_text: Some(text),
                    detected_urls: if urls.len() > 0 {
                        Some(urls)
                    } else {
                        None
                    },
                    content_type: if urls.len() == 1 && trim_of(text) == urls[0] {
                        ClipboardContentType::Link
                    } else if rtf_fires(s) {
                        ClipboardContentType::RichText
                    } else {
                        ClipboardContentType::Text
                    },
                    ..staged
                },
            )
        } else if rtf_fires(s) {
            Some(staged)
        } else {
            None
        }
    }
}

/// An optional string list holds at least one entry.
fn has_nonempty_strs(o: &Option<Vec<String>>) -> (r: bool)
    ensures
        r == (view_opt_str_list(*o) matches Some(p) && p.len() > 0),
{
    match o {
        Some(p) => p.len() > 0,
        None => false,
    }
}

/// An optional byte buffer holds at least one byte.
fn has_nonempty_bytes(o: &Option<Vec<u8>>) -> (r: bool)
    ensures
        r == (view_opt_bytes(*o) matches Some(d) && d.len() > 0),
{
    match o {
        Some(d) => d.len() > 0,
        None => false,
    }
}

/// Classify one snapshot into a normalized item carrying the given identity
/// and capture timestamp. Returns `None` exactly when no branch fires: no
/// declared type whose extraction yielded anything.
pub fn build_item(snap: PasteboardSnapshot, id: String, created_at: String) -> (result: Option<
    NativeClipboardItem,
>)
    ensures
        result is Some <==> classifies(snap@),
        result matches Some(item) ==> item@ == spec_build(snap@, id@, created_at@)->Some_0,
{
    let ghost s = snap@;
    let PasteboardSnapshot {
        has_file_url_type,
        has_png_type,
        has_tiff_type,
        has_html_type,
        has_rtf_type,
        has_text_type,
        source_app_bundle_id,
        source_app_name,
        file_paths,
        png_data,
        tiff_data,
        html_data,
        rtf_data,
        plain_text,
    } = snap;
    let mut item = NativeClipboardItem {
        id,
        content_type: ClipboardContentType::Unknown,
        created_at,
        source_app_bundle_id,
        source_app_name,
        plain_text: None,
        rtf_data: None,
        html_data: None,
        image_data: None,
        image_width: None,
        image_height: None,
        image_format: None,
        file_paths: None,
        detected_urls: None,
    };

    // File paths take priority over everything else: a dragged file's
    // pasteboard representation can coincidentally advertise other types too.
    if has_file_url_type && has_nonempty_strs(&file_paths) {
        item.file_paths = file_paths;
        item.content_type = ClipboardContentType::File;
        return Some(item);
    }

    // Images next: PNG bytes preferred, TIFF as the fallback.
    if has_png_type || has_tiff_type {
        if has_nonempty_bytes(&png_data) {
            item.image_data = png_data;
            item.image_format = Some(String::from_str("png"));
            item.content_type = ClipboardContentType::Image;
            return Some(item);
        }
        if has_nonempty_bytes(&tiff_data) {
            item.image_data = tiff_data;
            item.image_format = Some(String::from_str("tiff"));
            item.content_type = ClipboardContentType::Image;
            return Some(item);
        }
    }

    // HTML is attached but never decides the tag, so probing continues.
    if has_html_type && html_data.is_some() {
        item.html_data = html_data;
    }

    let rtf_hit = has_rtf_type && rtf_data.is_some();
    if rtf_hit {
        item.rtf_data = rtf_data;
        item.content_type = ClipboardContentType::RichText;
    }

    if has_text_type {
        if let Some(text) = plain_text {
            let urls = detect_urls(text.as_str());
            let link = urls.len() == 1 && trimmed_eq(text.as_str(), &urls[0]);
            if urls.len() > 0 {
                item.detected_urls = Some(urls);
            }
            if link {
                // The entire trimmed text is the one URL: upgrade to Link,
                // overriding any tentative RichText tag.
                item.content_type = ClipboardContentType::Link;
            }
            item.plain_text = Some(text);
            if item.content_type == ClipboardContentType::Unknown {
                item.content_type = ClipboardContentType::Text;
            }
            return Some(item);
        }
    }

    // Rich text captured without any plain text still makes an item.
    if rtf_hit {
        return Some(item);
    }

    None
}

/// Law: the file branch precedes every other probe, so a snapshot that
/// declares the file-reference type and yields at least one path — whatever
/// else it declares, plain text included — is classified `File` and carries
/// exactly those paths.
pub proof fn lemma_file_priority(s: SnapModel, id: Seq<char>, ts: Seq<char>)
    requires
        s.has_file_url_type,
        s.file_paths matches Some(p) && p.len() > 0,
    ensures
        spec_build(s, id, ts) matches Some(m) && m.content_type == ClipboardContentType::File
            && m.file_paths == s.file_paths,
{
}

/// Law: a payload field that a branch does not populate stays absent — never
/// an empty placeholder — so a consumer can tell "no such representation"
/// from an empty one; and image dimensions are never populated at all.
pub proof fn lemma_unpopulated_fields_absent(s: SnapModel, id: Seq<char>, ts: Seq<char>)
    requires
        spec_build(s, id, ts) is Some,
    ensures
        spec_build(s, id, ts) matches Some(m) ==> m.image_width is None && m.image_height is None,
        spec_build(s, id, ts) matches Some(m) ==> (m.content_type == ClipboardContentType::File
            ==> m.image_data is None && m.image_format is None && m.plain_text is None
            && m.rtf_data is None && m.html_data is None && m.detected_urls is None),
        spec_build(s, id, ts) matches Some(m) ==> (m.content_type == ClipboardContentType::Image
            ==> m.file_paths is None && m.plain_text is None && m.rtf_data is None
            && m.html_data is None && m.detected_urls is None),
        spec_build(s, id, ts) matches Some(m) ==> (!file_fires(s) && !image_fires(s)
            ==> m.image_data is None && m.image_format is None && m.file_paths is None),
        spec_build(s, id, ts) matches Some(m) ==> (!rtf_fires(s) ==> m.rtf_data is None),
        spec_build(s, id, ts) matches Some(m) ==> (html_attached(s) is None && !file_fires(s)
            && !image_fires(s) ==> m.html_data is None),
        spec_build(s, id, ts) matches Some(m) ==> (!text_fires(s) ==> m.plain_text is None
            && m.detected_urls is None),
        spec_build(s, id, ts) matches Some(m) ==> (text_fires(s) && !file_fires(s)
            && !image_fires(s) && url_matches(s.plain_text->Some_0).len() == 0
            ==> m.detected_urls is None),
{
}

} // verus!
