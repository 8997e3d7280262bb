//! Clipboard snapshot-and-classify core.
//!
//! The library turns the raw contents of the system pasteboard — captured as
//! a plain [`PasteboardSnapshot`] — into one normalized
//! [`NativeClipboardItem`] by a fixed, priority-ordered probe sequence, and
//! detects URLs inside plain text. The live pasteboard is an OS-owned
//! resource: an embedder fills the snapshot and drives the poll loop, while
//! every classification decision is made, and verified, here. On a platform
//! without the pasteboard facility the two entry points collapse to constant
//! absence values.

pub mod capture;
pub mod reader;
pub mod types;
pub mod urls;

pub use capture::capture_item;
pub use capture::get_clipboard_change_count;
pub use capture::read_clipboard_content;
pub use reader::PasteboardSnapshot;
pub use types::ClipboardContentType;
pub use types::ClipboardMonitorConfig;
pub use types::NativeClipboardItem;
pub use types::SourceAppInfo;
pub use urls::detect_urls;
