//! Tests of output format selection.

use gpu_processor::format::{parse_format, OutputFormat};

#[test]
fn known_format_names_are_recognised() {
    assert_eq!(parse_format(b"jpeg"), Some(OutputFormat::Jpeg));
    assert_eq!(parse_format(b"jpg"), Some(OutputFormat::Jpeg));
    assert_eq!(parse_format(b"png"), Some(OutputFormat::Png));
    assert_eq!(parse_format(b"webp"), Some(OutputFormat::WebP));
}

#[test]
fn format_names_are_case_insensitive() {
    assert_eq!(parse_format(b"JPEG"), Some(OutputFormat::Jpeg));
    assert_eq!(parse_format(b"Jpg"), Some(OutputFormat::Jpeg));
    assert_eq!(parse_format(b"PNG"), Some(OutputFormat::Png));
    assert_eq!(parse_format(b"WebP"), Some(OutputFormat::WebP));
}

#[test]
fn unknown_format_names_are_rejected() {
    assert_eq!(parse_format(b"gif"), None);
    assert_eq!(parse_format(b""), None);
    assert_eq!(parse_format(b"jpeg "), None);
    assert_eq!(parse_format(b"tiff"), None);
}
