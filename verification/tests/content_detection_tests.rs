use que_engine::content_detection::{detect_extension_from_bytes, extension_to_mime_type};

fn padded(head: &[u8], len: usize) -> Vec<u8> {
    let mut data = head.to_vec();
    while data.len() < len {
        data.push(0);
    }
    data
}

#[test]
fn detects_jpeg_from_minimal_header() {
    assert_eq!(detect_extension_from_bytes(&[0xFF, 0xD8, 0xFF]), Some("jpg"));
    assert_eq!(detect_extension_from_bytes(&padded(&[0xFF, 0xD8, 0xFF], 1024)), Some("jpg"));
}

#[test]
fn detects_png_from_signature() {
    assert_eq!(
        detect_extension_from_bytes(&[0x89, b'P', b'N', b'G', 0x0D, 0x0A, 0x1A, 0x0A]),
        Some("png")
    );
    assert_eq!(detect_extension_from_bytes(&[0x89, b'P', b'N', b'G', 0x0D, 0x0A, 0x1A]), None);
}

#[test]
fn detects_both_gif_versions() {
    assert_eq!(detect_extension_from_bytes(b"GIF87a"), Some("gif"));
    assert_eq!(detect_extension_from_bytes(b"GIF89a"), Some("gif"));
    assert_eq!(detect_extension_from_bytes(b"GIF88a"), None);
}

#[test]
fn riff_containers_are_told_apart_by_subtype() {
    assert_eq!(detect_extension_from_bytes(b"RIFF\x00\x00\x00\x00WEBP"), Some("webp"));
    assert_eq!(detect_extension_from_bytes(b"RIFF\x10\x00\x00\x00WAVE"), Some("wav"));
    assert_eq!(detect_extension_from_bytes(b"RIFF\x10\x00\x00\x00AVI "), Some("avi"));
    assert_eq!(detect_extension_from_bytes(b"RIFF\x10\x00\x00\x00XXXX"), None);
    assert_eq!(detect_extension_from_bytes(b"RIFF\x10\x00\x00\x00WEB"), None);
}

#[test]
fn detects_tiff_in_both_byte_orders() {
    assert_eq!(detect_extension_from_bytes(b"II*\0"), Some("tiff"));
    assert_eq!(detect_extension_from_bytes(b"MM\0*"), Some("tiff"));
    assert_eq!(detect_extension_from_bytes(b"MM*\0"), None);
}

fn ftyp(brand: &[u8; 4]) -> Vec<u8> {
    let mut data = vec![0, 0, 0, 0x18];
    data.extend_from_slice(b"ftyp");
    data.extend_from_slice(brand);
    data.extend_from_slice(&[0, 0, 0, 0]);
    data
}

#[test]
fn bmff_brands_map_to_their_extensions() {
    assert_eq!(detect_extension_from_bytes(&ftyp(b"heic")), Some("heic"));
    assert_eq!(detect_extension_from_bytes(&ftyp(b"heif")), Some("heif"));
    assert_eq!(detect_extension_from_bytes(&ftyp(b"avif")), Some("avif"));
    assert_eq!(detect_extension_from_bytes(&ftyp(b"mp42")), Some("mp4"));
    assert_eq!(detect_extension_from_bytes(&ftyp(b"isom")), Some("mp4"));
    assert_eq!(detect_extension_from_bytes(&ftyp(b"mp41")), Some("mp4"));
    assert_eq!(detect_extension_from_bytes(&ftyp(b"dash")), Some("mp4"));
    assert_eq!(detect_extension_from_bytes(&ftyp(b"qt  ")), Some("mov"));
    assert_eq!(detect_extension_from_bytes(&ftyp(b"M4A ")), Some("m4a"));
    assert_eq!(detect_extension_from_bytes(&ftyp(b"m4af")), Some("m4a"));
}

#[test]
fn unknown_or_short_bmff_brand_is_mp4() {
    assert_eq!(detect_extension_from_bytes(&ftyp(b"zzzz")), Some("mp4"));
    let short = &ftyp(b"heic")[..12];
    assert_eq!(detect_extension_from_bytes(short), Some("mp4"));
    assert_eq!(detect_extension_from_bytes(&ftyp(b"heic")[..11]), None);
}

#[test]
fn detects_pdf() {
    assert_eq!(detect_extension_from_bytes(b"%PDF-"), Some("pdf"));
    assert_eq!(detect_extension_from_bytes(b"%PDF-1.7\n"), Some("pdf"));
    assert_eq!(detect_extension_from_bytes(b"%PDF"), None);
}

#[test]
fn detects_svg_in_any_letter_case() {
    assert_eq!(detect_extension_from_bytes(b"<svg xmlns=\"x\"/>"), Some("svg"));
    assert_eq!(detect_extension_from_bytes(b"<?xml version=\"1.0\"?><SVG/>"), Some("svg"));
    assert_eq!(detect_extension_from_bytes(b"<?xml version=\"1.0\"?><SvG/>"), Some("svg"));
    assert_eq!(detect_extension_from_bytes(b"<html><body/></html>"), None);
    assert_eq!(detect_extension_from_bytes(b"<svg"), None);
}

#[test]
fn svg_tag_beyond_the_window_is_not_seen() {
    let mut data = vec![b'<'];
    data.extend(std::iter::repeat(b' ').take(511));
    data.extend_from_slice(b"<svg>");
    assert_eq!(detect_extension_from_bytes(&data), None);
    let mut inside = vec![b'<'];
    inside.extend(std::iter::repeat(b' ').take(507));
    inside.extend_from_slice(b"<svg>");
    assert_eq!(detect_extension_from_bytes(&inside), Some("svg"));
}

#[test]
fn svg_needs_well_formed_utf8() {
    let mut data = b"<svg>".to_vec();
    data.push(0xFF);
    assert_eq!(detect_extension_from_bytes(&data), None);
    let mut cut = vec![b'<'];
    cut.extend_from_slice(b"svg>");
    cut.extend(std::iter::repeat(b' ').take(506));
    cut.extend_from_slice("é".as_bytes());
    assert_eq!(cut.len(), 513);
    assert_eq!(detect_extension_from_bytes(&cut), None);
}

#[test]
fn detects_ico_and_bmp() {
    assert_eq!(detect_extension_from_bytes(&[0x00, 0x00, 0x01, 0x00]), Some("ico"));
    assert_eq!(detect_extension_from_bytes(b"BM"), Some("bmp"));
    assert_eq!(detect_extension_from_bytes(b"BM6\x00\x00\x00"), Some("bmp"));
}

#[test]
fn detects_mp3_by_tag_or_frame_sync() {
    assert_eq!(detect_extension_from_bytes(b"ID3"), Some("mp3"));
    assert_eq!(detect_extension_from_bytes(&[0xFF, 0xFB]), Some("mp3"));
    assert_eq!(detect_extension_from_bytes(&[0xFF, 0xE0]), Some("mp3"));
    assert_eq!(detect_extension_from_bytes(&[0xFF, 0xDF]), None);
}

#[test]
fn unstructured_bytes_are_unknown() {
    assert_eq!(detect_extension_from_bytes(b""), None);
    assert_eq!(detect_extension_from_bytes(b"This is just plain text, not an image"), None);
    assert_eq!(detect_extension_from_bytes(&[0x13, 0x37, 0xC0, 0xDE, 0x42, 0x99, 0x01, 0x7A]), None);
    assert_eq!(detect_extension_from_bytes(&[0x01; 600]), None);
}

#[test]
fn first_signature_in_table_order_wins() {
    let mut data = b"RIFF".to_vec();
    data.extend_from_slice(b"ftyp");
    data.extend_from_slice(b"WEBP");
    assert_eq!(detect_extension_from_bytes(&data), Some("webp"));
    let mut bm = b"BM\0\0".to_vec();
    bm.extend_from_slice(b"ftypisom\0\0\0\0");
    assert_eq!(detect_extension_from_bytes(&bm), Some("mp4"));
}

#[test]
fn detection_reads_no_byte_beyond_the_window() {
    let mut data = b"<?xml?><svg>".to_vec();
    data.resize(512, b' ');
    let mut longer = data.clone();
    longer.extend_from_slice(&[0xFF, 0xFE, 0x00]);
    assert_eq!(detect_extension_from_bytes(&data), Some("svg"));
    assert_eq!(detect_extension_from_bytes(&longer), detect_extension_from_bytes(&data));
}

#[test]
fn extensions_map_to_mime_types() {
    assert_eq!(extension_to_mime_type("jpg"), "image/jpeg");
    assert_eq!(extension_to_mime_type("jpeg"), "image/jpeg");
    assert_eq!(extension_to_mime_type("png"), "image/png");
    assert_eq!(extension_to_mime_type("gif"), "image/gif");
    assert_eq!(extension_to_mime_type("webp"), "image/webp");
    assert_eq!(extension_to_mime_type("wav"), "audio/wav");
    assert_eq!(extension_to_mime_type("avi"), "video/msvideo");
    assert_eq!(extension_to_mime_type("tiff"), "image/tiff");
    assert_eq!(extension_to_mime_type("tif"), "image/tiff");
    assert_eq!(extension_to_mime_type("heic"), "image/heic");
    assert_eq!(extension_to_mime_type("heif"), "image/heif");
    assert_eq!(extension_to_mime_type("avif"), "image/avif");
    assert_eq!(extension_to_mime_type("mp4"), "video/mp4");
    assert_eq!(extension_to_mime_type("mov"), "video/quicktime");
    assert_eq!(extension_to_mime_type("m4a"), "audio/mp4");
    assert_eq!(extension_to_mime_type("mp3"), "audio/mpeg");
    assert_eq!(extension_to_mime_type("pdf"), "application/pdf");
    assert_eq!(extension_to_mime_type("svg"), "image/svg+xml");
    assert_eq!(extension_to_mime_type("ico"), "application/octet-stream");
    assert_eq!(extension_to_mime_type("JPG"), "application/octet-stream");
    assert_eq!(extension_to_mime_type(""), "application/octet-stream");
}
