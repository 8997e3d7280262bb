//! Capturing a snapshot into a fresh item, and the platform capability gate.

use vstd::prelude::*;

use crate::reader::PasteboardSnapshot;
use crate::reader::build_item;
use crate::reader::classifies;
use crate::reader::spec_build;
use crate::types::NativeClipboardItem;

verus! {

/// Relies on `uuid::Uuid::new_v4` and its `Display` form: a fresh version-4
/// identifier printed in the 36-character hyphenated format. The value is
/// random, so only its length is claimed.
#[verifier::external_body]
fn fresh_item_id() -> (id: String)
    ensures
        id@.len() == 36,
{
    uuid::Uuid::new_v4().to_string()
}

/// Relies on `chrono::Utc::now` and `DateTime::to_rfc3339`: the moment of the
/// call printed as a non-empty RFC 3339 timestamp. The value depends on the
/// clock, so nothing more is claimed.
#[verifier::external_body]
fn current_timestamp() -> (ts: String)
    ensures
        ts@.len() > 0,
{
    chrono::Utc::now().to_rfc3339()
}

/// Normalize one pasteboard snapshot into a clipboard item carrying a fresh
/// identity and the capture moment. Two captures of the same snapshot yield
/// structurally equal payloads under different ids and timestamps; `None`
/// comes exactly when no probe of the priority order fires.
pub fn capture_item(snap: PasteboardSnapshot) -> (result: Option<NativeClipboardItem>)
    ensures
        result is Some <==> classifies(snap@),
        result matches Some(item) ==> item@ == spec_build(snap@, item@.id, item@.created_at)->Some_0,
        result matches Some(item) ==> item@.id.len() == 36,
        result matches Some(item) ==> item@.created_at.len() > 0,
{
    let id = fresh_item_id();
    let ts = current_timestamp();
    build_item(snap, id, ts)
}

/// Pasteboard reader for a build whose platform lacks the pasteboard
/// facility: there is never anything to read, so every call returns `None`.
/// An embedder on a capable platform reads the live pasteboard itself and
/// hands the result to [`capture_item`] as a snapshot.
pub fn read_clipboard_content() -> (result: Option<NativeClipboardItem>)
    ensures
        result is None,
{
    None
}

/// Change-counter accessor for a build whose platform lacks the pasteboard
/// facility: the counter is the constant zero, so consecutive reads are
/// always equal and a poller sees a valid "never changes" steady state,
/// distinct from a genuine empty clipboard.
pub fn get_clipboard_change_count() -> (count: i64)
    ensures
        count == 0,
{
    0
}

} // verus!
