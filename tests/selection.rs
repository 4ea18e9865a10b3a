use copyright_watermark::batch::{
    classify_input, should_process_entry, BatchReport, InputKind, WatermarkError,
};
use copyright_watermark::config::{
    default_alpha, default_color, default_color_component, default_font_path, default_position,
    default_text, ColorConfig, CopyrightConfig,
};
use copyright_watermark::files::{is_image_extension, is_image_file, output_file_name};
use copyright_watermark::position::Position;

#[test]
fn image_extensions_ignore_case() {
    for e in ["jpg", "jpeg", "png", "gif", "bmp", "webp"] {
        assert!(is_image_file(Some(e)), "{}", e);
    }
    assert!(is_image_file(Some("JPG")));
    assert!(is_image_file(Some("WebP")));
    assert!(!is_image_file(Some("txt")));
    assert!(!is_image_file(Some("tiff")));
    assert!(!is_image_file(Some("")));
    assert!(!is_image_file(None));
}

#[test]
fn folded_extension_must_already_be_lower_case() {
    assert!(is_image_extension("png"));
    assert!(!is_image_extension("PNG"));
    assert!(!is_image_extension("pn"));
    assert!(!is_image_extension("pngg"));
}

#[test]
fn output_name_is_prefixed() {
    assert_eq!(output_file_name("cat.png"), "watermarked_cat.png");
    assert_eq!(output_file_name("\u{e9}t\u{e9}.JPG"), "watermarked_\u{e9}t\u{e9}.JPG");
}

#[test]
fn input_classification() {
    assert!(matches!(classify_input(true, false, None), Ok(InputKind::Directory)));
    assert!(matches!(classify_input(false, true, Some("Png")), Ok(InputKind::SingleImage)));
    assert!(matches!(
        classify_input(false, true, Some("txt")),
        Err(WatermarkError::InvalidInputPath)
    ));
    assert!(matches!(
        classify_input(false, false, Some("png")),
        Err(WatermarkError::InvalidInputPath)
    ));
}

#[test]
fn directory_entries_selected() {
    assert!(should_process_entry(true, Some("gif")));
    assert!(!should_process_entry(false, Some("gif")));
    assert!(!should_process_entry(true, Some("md")));
}

#[test]
fn batch_with_one_corrupt_image() {
    let mut report = BatchReport::new();
    report.record("a.png".to_string(), Ok("watermarked_a.png".to_string()));
    report.record("b.jpg".to_string(), Err(WatermarkError::Decode("corrupt".to_string())));
    report.record("c.gif".to_string(), Ok("watermarked_c.gif".to_string()));
    report.record("d.bmp".to_string(), Ok("watermarked_d.bmp".to_string()));
    assert_eq!(
        report.written,
        vec!["watermarked_a.png", "watermarked_c.gif", "watermarked_d.bmp"]
    );
    assert_eq!(report.failures.len(), 1);
    assert_eq!(report.failures[0].0, "b.jpg");
    assert!(matches!(report.failures[0].1, WatermarkError::Decode(_)));
}

#[test]
fn error_scope() {
    assert!(WatermarkError::Decode(String::new()).per_file());
    assert!(WatermarkError::Write(String::new()).per_file());
    assert!(!WatermarkError::FontLoad(String::new()).per_file());
    assert!(!WatermarkError::ConfigParse(String::new()).per_file());
    assert!(!WatermarkError::InvalidInputPath.per_file());
}

#[test]
fn defaults() {
    assert_eq!(default_text(), "\u{a9} Copyright");
    assert_eq!(default_text().chars().count(), 11);
    assert_eq!(default_font_path(), "/path/to/default/font.ttf");
    assert_eq!(default_position(), Position::BottomRight);
    assert_eq!(default_color_component(), 255);
    assert_eq!(default_alpha(), 128);
    assert_eq!(default_color(), ColorConfig { r: 255, g: 255, b: 255, a: 128 });
    let c = CopyrightConfig::default();
    assert_eq!(c.text, "\u{a9} Copyright");
    assert_eq!(c.position, Position::BottomRight);
    assert_eq!(c.color.pixel().a, 128);
}
