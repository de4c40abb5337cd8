use sensorium::{
    AppId, FileRef, MimeType, SelectionRef, SensoriumError, SymbolRef, TextSpan, Uri, WindowId,
    WindowRect,
};

#[test]
fn empty_app_id_rejected() {
    let err = AppId::new("").expect_err("empty rejected");
    assert!(matches!(err, SensoriumError::EmptyIdentifier { field: "AppId" }));
}

#[test]
fn whitespace_app_id_rejected() {
    let err = AppId::new("   \t\n").expect_err("whitespace rejected");
    assert!(matches!(err, SensoriumError::EmptyIdentifier { field: "AppId" }));
}

#[test]
fn valid_app_id_constructs_and_trims() {
    let id = AppId::new("  com.example.app  ").expect("trims and accepts");
    assert_eq!(id.as_str(), "com.example.app");
}

#[test]
fn empty_window_id_rejected() {
    let err = WindowId::new("").expect_err("empty rejected");
    assert!(matches!(err, SensoriumError::EmptyIdentifier { field: "WindowId" }));
}

#[test]
fn empty_uri_rejected() {
    let err = Uri::new("").expect_err("empty rejected");
    assert!(matches!(err, SensoriumError::EmptyIdentifier { field: "Uri" }));
}

#[test]
fn mime_type_normalizes_case() {
    let m = MimeType::new("Text/Plain").expect("valid mime");
    assert_eq!(m.as_str(), "text/plain");
}

#[test]
fn empty_mime_type_rejected() {
    let err = MimeType::new("   ").expect_err("empty rejected");
    assert!(matches!(err, SensoriumError::EmptyIdentifier { field: "MimeType" }));
}

#[test]
fn text_span_with_end_before_start_rejected() {
    let err = TextSpan::new(10, 5).expect_err("end < start rejected");
    assert!(matches!(err, SensoriumError::InvalidSpan { start: 10, end: 5 }));
}

#[test]
fn text_span_zero_length_allowed_as_cursor() {
    let span = TextSpan::new(42, 42).expect("zero-length is a cursor position");
    assert_eq!(span.len(), 0);
    assert!(span.is_empty());
}

#[test]
fn empty_symbol_ref_qualified_name_rejected() {
    let err = SymbolRef::new(FileRef::new("/tmp/x.rs"), "").expect_err("empty rejected");
    assert!(matches!(
        err,
        SensoriumError::EmptyIdentifier { field: "SymbolRef.qualified_name" }
    ));
}

#[test]
fn selection_ref_round_trips_through_constructor() {
    let span = TextSpan::new(0, 100).expect("valid");
    let sel = SelectionRef::new(FileRef::new("/etc/hosts"), span);
    assert_eq!(sel.span.start, 0);
    assert_eq!(sel.span.end, 100);
    assert_eq!(sel.span.len(), 100);
}

#[test]
fn window_rect_contains_correctly() {
    let rect = WindowRect { x: 10, y: 20, width: 100, height: 50 };
    assert!(rect.contains(10, 20));
    assert!(rect.contains(109, 69));
    assert!(!rect.contains(9, 20));
    assert!(!rect.contains(10, 19));
    assert!(!rect.contains(110, 20));
    assert!(!rect.contains(10, 70));
}

#[test]
fn window_rect_zero_size_contains_nothing() {
    let rect = WindowRect { x: 5, y: 5, width: 0, height: 0 };
    assert!(!rect.contains(5, 5));
}

#[test]
fn file_ref_attaches_mime() {
    let f = FileRef::new("/etc/passwd").with_mime(MimeType::new("text/plain").unwrap());
    assert_eq!(f.mime.as_ref().map(MimeType::as_str), Some("text/plain"));
}

#[test]
fn window_rect_at_the_edge_of_the_coordinate_space_saturates() {
    let rect = WindowRect { x: i32::MAX - 1, y: 0, width: 10, height: 10 };
    assert!(rect.contains(i32::MAX - 1, 0));
    assert!(!rect.contains(i32::MAX, 5));
    let low = WindowRect { x: i32::MIN, y: i32::MIN, width: u32::MAX, height: 1 };
    assert!(low.contains(i32::MAX - 1, i32::MIN));
    assert!(!low.contains(i32::MIN, i32::MIN + 1));
}

#[test]
fn accepted_identifiers_validate_again_unchanged() {
    let id = AppId::new("\u{a0} com.x \t").expect("accepted");
    assert_eq!(id.as_str(), "com.x");
    let again = AppId::new(id.as_str()).expect("accepted again");
    assert_eq!(again, id);
    let uri = Uri::new(" https://example.com ").expect("accepted");
    assert_eq!(uri.as_str(), " https://example.com ", "a URI is kept verbatim");
    assert!(matches!(Uri::new(" \t"), Err(SensoriumError::EmptyIdentifier { field: "Uri" })));
    let win = WindowId::new("w-1").expect("accepted");
    assert_eq!(win.as_str(), "w-1");
}

#[test]
fn unchecked_constructors_keep_the_text_verbatim() {
    assert_eq!(AppId::from_string_unchecked("  spaced ".to_owned()).as_str(), "  spaced ");
    assert_eq!(WindowId::from_string_unchecked(String::new()).as_str(), "");
}

#[test]
fn symbol_ref_trims_and_attaches_kind() {
    let s = SymbolRef::new(FileRef::new("/src/lib.rs"), "  crate::f ")
        .expect("accepted")
        .with_kind("function".to_owned());
    assert_eq!(s.qualified_name, "crate::f");
    assert_eq!(s.kind.as_deref(), Some("function"));
    assert_eq!(s.file, FileRef::new("/src/lib.rs"));
}

#[test]
fn clones_of_entities_are_equal() {
    let f = FileRef::new("/a/b").with_mime(MimeType::new("Image/PNG").unwrap());
    assert_eq!(f.clone(), f);
    assert_eq!(f.mime.as_ref().map(MimeType::as_str), Some("image/png"));
    let sel = SelectionRef::new(f.clone(), TextSpan::new(1, 3).unwrap());
    assert_eq!(sel.clone(), sel);
    assert_eq!(FileRef::from_path(std::path::PathBuf::from("/a/b")).path, f.path);
}

#[test]
fn unchecked_mime_and_uri_keep_text_verbatim() {
    assert_eq!(MimeType::from_string_unchecked("Text/X".to_owned()).as_str(), "Text/X");
    assert_eq!(Uri::from_string_unchecked(" u ".to_owned()).as_str(), " u ");
}

#[test]
fn identifiers_trim_exactly_unicode_white_space() {
    for raw in [
        "\u{3000}\u{2028} é.app\u{85}\n",
        "\u{200B}x\u{200B}",
        "\u{1680}\u{2000}\u{200A}\u{202F}\u{205F}ä\u{A0}\u{9}\u{D}",
        "  inner  space  ",
    ] {
        let id = AppId::new(raw).expect("accepted");
        assert_eq!(id.as_str(), raw.trim());
    }
}
