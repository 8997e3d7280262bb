use clipboard_core::ClipboardContentType;
use clipboard_core::ClipboardMonitorConfig;
use clipboard_core::PasteboardSnapshot;
use clipboard_core::capture_item;
use clipboard_core::detect_urls;
use clipboard_core::get_clipboard_change_count;
use clipboard_core::read_clipboard_content;
use clipboard_core::reader::build_item;

fn empty_snapshot() -> PasteboardSnapshot {
    PasteboardSnapshot {
        has_file_url_type: false,
        has_png_type: false,
        has_tiff_type: false,
        has_html_type: false,
        has_rtf_type: false,
        has_text_type: false,
        source_app_bundle_id: None,
        source_app_name: None,
        file_paths: None,
        png_data: None,
        tiff_data: None,
        html_data: None,
        rtf_data: None,
        plain_text: None,
    }
}

fn text_snapshot(text: &str) -> PasteboardSnapshot {
    PasteboardSnapshot {
        has_text_type: true,
        plain_text: Some(text.to_string()),
        ..empty_snapshot()
    }
}

fn build(snap: PasteboardSnapshot) -> Option<clipboard_core::NativeClipboardItem> {
    build_item(snap, "id-0".to_string(), "1970-01-01T00:00:00+00:00".to_string())
}

#[test]
fn test_detect_urls() {
    let text = "Check out https://example.com and http://test.org for more";
    let urls = detect_urls(text);
    assert_eq!(urls.len(), 2);
    assert!(urls.contains(&"https://example.com".to_string()));
    assert!(urls.contains(&"http://test.org".to_string()));
}

#[test]
fn test_detect_single_url() {
    let text = "https://github.com/user/repo";
    let urls = detect_urls(text);
    assert_eq!(urls.len(), 1);
    assert_eq!(urls[0], "https://github.com/user/repo");
}

#[test]
fn test_no_urls() {
    let text = "This is plain text without any URLs";
    let urls = detect_urls(text);
    assert!(urls.is_empty());
}

#[test]
fn test_detect_urls_in_order() {
    let urls = detect_urls("Check out https://example.com and http://test.org for more");
    assert_eq!(urls, vec!["https://example.com".to_string(), "http://test.org".to_string()]);
}

#[test]
fn test_detect_urls_keeps_duplicates() {
    let urls = detect_urls("https://a.example https://a.example");
    assert_eq!(urls, vec!["https://a.example".to_string(), "https://a.example".to_string()]);
}

#[test]
fn test_detect_urls_greedy_to_whitespace() {
    let urls = detect_urls("wrapped http://example.com/path?q=1,see. done");
    assert_eq!(urls, vec!["http://example.com/path?q=1,see.".to_string()]);
}

#[test]
fn test_scheme_without_rest_is_no_url() {
    assert!(detect_urls("https:// and http:// alone").is_empty());
    assert_eq!(detect_urls("https://"), Vec::<String>::new());
}

#[test]
fn test_link_classification() {
    let item = build(text_snapshot("https://github.com/user/repo")).unwrap();
    assert_eq!(item.content_type, ClipboardContentType::Link);
    assert_eq!(item.detected_urls, Some(vec!["https://github.com/user/repo".to_string()]));
    assert_eq!(item.plain_text, Some("https://github.com/user/repo".to_string()));
}

#[test]
fn test_link_classification_trims_whitespace() {
    let item = build(text_snapshot("  https://github.com/user/repo\n")).unwrap();
    assert_eq!(item.content_type, ClipboardContentType::Link);
}

#[test]
fn test_text_classification_without_urls() {
    let item = build(text_snapshot("This is plain text without any URLs")).unwrap();
    assert_eq!(item.content_type, ClipboardContentType::Text);
    assert_eq!(item.detected_urls, None);
    assert_eq!(item.plain_text, Some("This is plain text without any URLs".to_string()));
}

#[test]
fn test_text_with_embedded_urls_stays_text() {
    let item = build(text_snapshot("Check out https://example.com and http://test.org for more"))
        .unwrap();
    assert_eq!(item.content_type, ClipboardContentType::Text);
    assert_eq!(
        item.detected_urls,
        Some(vec!["https://example.com".to_string(), "http://test.org".to_string()])
    );
}

#[test]
fn test_file_priority_over_text() {
    let snap = PasteboardSnapshot {
        has_file_url_type: true,
        file_paths: Some(vec!["/Users/me/notes.txt".to_string()]),
        ..text_snapshot("notes.txt")
    };
    let item = build(snap).unwrap();
    assert_eq!(item.content_type, ClipboardContentType::File);
    assert_eq!(item.file_paths, Some(vec!["/Users/me/notes.txt".to_string()]));
    assert_eq!(item.plain_text, None);
    assert_eq!(item.detected_urls, None);
}

#[test]
fn test_file_type_without_paths_falls_through() {
    let snap = PasteboardSnapshot {
        has_file_url_type: true,
        file_paths: Some(Vec::new()),
        ..text_snapshot("just text")
    };
    let item = build(snap).unwrap();
    assert_eq!(item.content_type, ClipboardContentType::Text);
    assert_eq!(item.file_paths, None);
}

#[test]
fn test_image_png_preferred_over_tiff() {
    let snap = PasteboardSnapshot {
        has_png_type: true,
        has_tiff_type: true,
        png_data: Some(vec![0x89, 0x50, 0x4E, 0x47]),
        tiff_data: Some(vec![0x49, 0x49]),
        ..empty_snapshot()
    };
    let item = build(snap).unwrap();
    assert_eq!(item.content_type, ClipboardContentType::Image);
    assert_eq!(item.image_data, Some(vec![0x89, 0x50, 0x4E, 0x47]));
    assert_eq!(item.image_format, Some("png".to_string()));
    assert_eq!(item.image_width, None);
    assert_eq!(item.image_height, None);
}

#[test]
fn test_image_tiff_fallback() {
    let snap = PasteboardSnapshot {
        has_png_type: true,
        has_tiff_type: true,
        png_data: None,
        tiff_data: Some(vec![0x49, 0x49, 0x2A]),
        ..empty_snapshot()
    };
    let item = build(snap).unwrap();
    assert_eq!(item.content_type, ClipboardContentType::Image);
    assert_eq!(item.image_data, Some(vec![0x49, 0x49, 0x2A]));
    assert_eq!(item.image_format, Some("tiff".to_string()));
}

#[test]
fn test_image_type_without_bytes_falls_through() {
    let snap = PasteboardSnapshot {
        has_png_type: true,
        png_data: Some(Vec::new()),
        ..text_snapshot("caption")
    };
    let item = build(snap).unwrap();
    assert_eq!(item.content_type, ClipboardContentType::Text);
    assert_eq!(item.image_data, None);
    assert_eq!(item.image_format, None);
}

#[test]
fn test_rich_text_without_plain_text() {
    let snap = PasteboardSnapshot {
        has_rtf_type: true,
        rtf_data: Some("{\\rtf1 hi}".to_string()),
        ..empty_snapshot()
    };
    let item = build(snap).unwrap();
    assert_eq!(item.content_type, ClipboardContentType::RichText);
    assert_eq!(item.rtf_data, Some("{\\rtf1 hi}".to_string()));
    assert_eq!(item.plain_text, None);
}

#[test]
fn test_rich_text_keeps_tag_beside_plain_text() {
    let snap = PasteboardSnapshot {
        has_rtf_type: true,
        rtf_data: Some("{\\rtf1 hi}".to_string()),
        ..text_snapshot("hi")
    };
    let item = build(snap).unwrap();
    assert_eq!(item.content_type, ClipboardContentType::RichText);
    assert_eq!(item.rtf_data, Some("{\\rtf1 hi}".to_string()));
    assert_eq!(item.plain_text, Some("hi".to_string()));
}

#[test]
fn test_link_overrides_rich_text() {
    let snap = PasteboardSnapshot {
        has_rtf_type: true,
        rtf_data: Some("{\\rtf1 link}".to_string()),
        ..text_snapshot("https://example.com/x")
    };
    let item = build(snap).unwrap();
    assert_eq!(item.content_type, ClipboardContentType::Link);
    assert_eq!(item.rtf_data, Some("{\\rtf1 link}".to_string()));
}

#[test]
fn test_html_alone_yields_nothing() {
    let snap = PasteboardSnapshot {
        has_html_type: true,
        html_data: Some("<p>hi</p>".to_string()),
        ..empty_snapshot()
    };
    assert!(build(snap).is_none());
}

#[test]
fn test_html_rides_along() {
    let snap = PasteboardSnapshot {
        has_html_type: true,
        html_data: Some("<p>hi</p>".to_string()),
        has_rtf_type: true,
        rtf_data: Some("{\\rtf1 hi}".to_string()),
        ..empty_snapshot()
    };
    let item = build(snap).unwrap();
    assert_eq!(item.content_type, ClipboardContentType::RichText);
    assert_eq!(item.html_data, Some("<p>hi</p>".to_string()));
}

#[test]
fn test_empty_snapshot_yields_nothing() {
    assert!(build(empty_snapshot()).is_none());
}

#[test]
fn test_declared_text_without_extraction_yields_nothing() {
    let snap = PasteboardSnapshot { has_text_type: true, ..empty_snapshot() };
    assert!(build(snap).is_none());
}

#[test]
fn test_source_app_metadata_is_kept() {
    let snap = PasteboardSnapshot {
        source_app_bundle_id: Some("com.example.editor".to_string()),
        source_app_name: Some("Editor".to_string()),
        ..text_snapshot("hello")
    };
    let item = build(snap).unwrap();
    assert_eq!(item.source_app_bundle_id, Some("com.example.editor".to_string()));
    assert_eq!(item.source_app_name, Some("Editor".to_string()));
}

#[test]
fn test_unsupported_platform_is_constant_absence() {
    for _ in 0..4 {
        assert!(read_clipboard_content().is_none());
        assert_eq!(get_clipboard_change_count(), 0);
    }
}

#[test]
fn test_change_count_consecutive_reads_agree() {
    let first = get_clipboard_change_count();
    let second = get_clipboard_change_count();
    assert_eq!(first, second);
}

#[test]
fn test_capture_item_fresh_identity() {
    let item = capture_item(text_snapshot("hello")).unwrap();
    assert_eq!(item.id.len(), 36);
    assert!(!item.created_at.is_empty());
    assert_eq!(item.content_type, ClipboardContentType::Text);
    let again = capture_item(text_snapshot("hello")).unwrap();
    assert_ne!(item.id, again.id);
    assert_eq!(item.plain_text, again.plain_text);
}

#[test]
fn test_capture_item_of_empty_snapshot() {
    assert!(capture_item(empty_snapshot()).is_none());
}

#[test]
fn test_content_type_labels() {
    assert_eq!(ClipboardContentType::Text.label(), "text");
    assert_eq!(ClipboardContentType::RichText.label(), "rich_text");
    assert_eq!(ClipboardContentType::Image.label(), "image");
    assert_eq!(ClipboardContentType::File.label(), "file");
    assert_eq!(ClipboardContentType::Link.label(), "link");
    assert_eq!(ClipboardContentType::Color.label(), "color");
    assert_eq!(ClipboardContentType::Unknown.label(), "unknown");
}

#[test]
fn test_monitor_config_defaults() {
    let config = ClipboardMonitorConfig::default();
    assert_eq!(config.poll_interval_ms, Some(500));
    assert_eq!(config.excluded_bundle_ids, Some(Vec::new()));
}
