//! Data model: the normalized clipboard item, its content-type taxonomy, and
//! the poller-facing configuration record.

use vstd::prelude::*;
use vstd::string::StringExecFns;

verus! {

/// Content type assigned to a clipboard item. Exactly one tag is chosen per
/// item by the priority-ordered probe sequence. `Color` is reserved in the
/// taxonomy for forward compatibility: no pasteboard type maps to it today,
/// so the extraction logic never produces it.
#[derive(Clone, Copy, Debug, PartialEq, Eq, Structural)]
pub enum ClipboardContentType {
    Text,
    RichText,
    Image,
    File,
    Link,
    Color,
    Unknown,
}

impl ClipboardContentType {
    /// The lower/snake-case label this tag serializes to.
    pub open spec fn spec_label(self) -> Seq<char> {
        match self {
            ClipboardContentType::Text => "text"@,
            ClipboardContentType::RichText => "rich_text"@,
            ClipboardContentType::Image => "image"@,
            ClipboardContentType::File => "file"@,
            ClipboardContentType::Link => "link"@,
            ClipboardContentType::Color => "color"@,
            ClipboardContentType::Unknown => "unknown"@,
        }
    }

    /// Render the tag as its serialization label.
    pub fn label(&self) -> (r: String)
        ensures
            r@ == self.spec_label(),
    {
        match self {
            ClipboardContentType::Text => String::from_str("text"),
            ClipboardContentType::RichText => String::from_str("rich_text"),
            ClipboardContentType::Image => String::from_str("image"),
            ClipboardContentType::File => String::from_str("file"),
            ClipboardContentType::Link => String::from_str("link"),
            ClipboardContentType::Color => String::from_str("color"),
            ClipboardContentType::Unknown => String::from_str("unknown"),
        }
    }
}

/// Identity of the application that was frontmost when the clipboard was read.
#[derive(Clone, Debug)]
pub struct SourceAppInfo {
    pub bundle_id: String,
    pub name: String,
}

/// Mathematical model of a [`NativeClipboardItem`]: every string becomes a
/// sequence of characters, every byte buffer a sequence of bytes.
#[verifier::ext_equal]
pub ghost struct ItemModel {
    pub id: Seq<char>,
    pub content_type: ClipboardContentType,
    pub created_at: Seq<char>,
    pub source_app_bundle_id: Option<Seq<char>>,
    pub source_app_name: Option<Seq<char>>,
    pub plain_text: Option<Seq<char>>,
    pub rtf_data: Option<Seq<char>>,
    pub html_data: Option<Seq<char>>,
    pub image_data: Option<Seq<u8>>,
    pub image_width: Option<u32>,
    pub image_height: Option<u32>,
    pub image_format: Option<Seq<char>>,
    pub file_paths: Option<Seq<Seq<char>>>,
    pub detected_urls: Option<Seq<Seq<char>>>,
}

/// View of an optional string as an optional character sequence.
pub open spec fn view_opt_str(o: Option<String>) -> Option<Seq<char>> {
    match o {
        Some(s) => Some(s@),
        None => None,
    }
}

/// View of an optional byte buffer as an optional byte sequence.
pub open spec fn view_opt_bytes(o: Option<Vec<u8>>) -> Option<Seq<u8>> {
    match o {
        Some(d) => Some(d@),
        None => None,
    }
}

/// View of a string sequence as a sequence of character sequences.
pub open spec fn strs_view(v: Seq<String>) -> Seq<Seq<char>> {
    v.map_values(|s: String| s@)
}

/// View of an optional string list as an optional sequence of character
/// sequences.
pub open spec fn view_opt_str_list(o: Option<Vec<String>>) -> Option<Seq<Seq<char>>> {
    match o {
        Some(v) => Some(strs_view(v@)),
        None => None,
    }
}

/// A clipboard item captured from the system: one content-type tag, source
/// metadata, and mutually-optional payload fields. A field left `None` means
/// the pasteboard offered no such representation — distinct from an empty one.
/// Image width and height are never populated: dimension extraction is a
/// documented non-goal.
#[derive(Clone, Debug)]
pub struct NativeClipboardItem {
    /// Unique identifier, fresh on every read.
    pub id: String,
    /// Type of content, chosen by the fixed priority order.
    pub content_type: ClipboardContentType,
    /// RFC 3339 timestamp of the moment of capture.
    pub created_at: String,
    /// Bundle identifier of the frontmost application, when resolvable.
    pub source_app_bundle_id: Option<String>,
    /// Display name of the frontmost application, when resolvable.
    pub source_app_name: Option<String>,
    pub plain_text: Option<String>,
    pub rtf_data: Option<String>,
    pub html_data: Option<String>,
    pub image_data: Option<Vec<u8>>,
    pub image_width: Option<u32>,
    pub image_height: Option<u32>,
    pub image_format: Option<String>,
    pub file_paths: Option<Vec<String>>,
    pub detected_urls: Option<Vec<String>>,
}

impl View for NativeClipboardItem {
    type V = ItemModel;

    open spec fn view(&self) -> ItemModel {
        ItemModel {
            id: self.id@,
            content_type: self.content_type,
            created_at: self.created_at@,
            source_app_bundle_id: view_opt_str(self.source_app_bundle_id),
            source_app_name: view_opt_str(self.source_app_name),
            plain_text: view_opt_str(self.plain_text),
            rtf_data: view_opt_str(self.rtf_data),
            html_data: view_opt_str(self.html_data),
            image_data: view_opt_bytes(self.image_data),
            image_width: self.image_width,
            image_height: self.image_height,
            image_format: view_opt_str(self.image_format),
            file_paths: view_opt_str_list(self.file_paths),
            detected_urls: view_opt_str_list(self.detected_urls),
        }
    }
}

/// Options for the external poller that drives this core in a loop. The core
/// itself enforces neither field: the poller sleeps `poll_interval_ms` between
/// counter reads and discards captures whose source bundle id is excluded.
#[derive(Clone, Debug)]
pub struct ClipboardMonitorConfig {
    /// Polling interval in milliseconds (default: 500).
    pub poll_interval_ms: Option<u32>,
    /// Bundle IDs to exclude from monitoring (default: none).
    pub excluded_bundle_ids: Option<Vec<String>>,
}

impl Default for ClipboardMonitorConfig {
    /// The documented defaults: a 500 ms interval and an empty exclusion list.
    fn default() -> (c: Self)
        ensures
            c.poll_interval_ms == Some(500u32),
            c.excluded_bundle_ids matches Some(ids) && ids@.len() == 0,
    {
        ClipboardMonitorConfig { poll_interval_ms: Some(500), excluded_bundle_ids: Some(Vec::new()) }
    }
}

} // verus!
