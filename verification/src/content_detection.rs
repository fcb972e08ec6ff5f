//! Magic-byte detection of a file format from its first bytes.
//!
//! The result is a hint for naming and routing. It is never a security
//! classification of the content.

use vstd::prelude::*;
use vstd::slice::slice_subrange;
use vstd::utf8::valid_utf8;
use crate::text::{four_at, has_four_at, str_eq, str_from_utf8};

verus! {

/// The number of leading bytes that detection may look at.
pub const SNIFF_WINDOW: usize = 512;

/// The part of `data` that detection looks at.
pub open spec fn sniff_window(data: Seq<u8>) -> Seq<u8> {
    if data.len() > 512 {
        data.subrange(0, 512)
    } else {
        data
    }
}

pub open spec fn is_jpeg(d: Seq<u8>) -> bool {
    d.len() >= 3 && d[0] == 0xFF && d[1] == 0xD8 && d[2] == 0xFF
}

pub open spec fn is_png(d: Seq<u8>) -> bool {
    four_at(d, 0, 0x89, 0x50, 0x4E, 0x47) && four_at(d, 4, 0x0D, 0x0A, 0x1A, 0x0A)
}

/// `GIF87a` or `GIF89a`.
pub open spec fn is_gif(d: Seq<u8>) -> bool {
    d.len() >= 6 && four_at(d, 0, 0x47, 0x49, 0x46, 0x38) && (d[4] == 0x37 || d[4] == 0x39)
        && d[5] == 0x61
}

/// A `RIFF` container of at least twelve bytes.
pub open spec fn is_riff(d: Seq<u8>) -> bool {
    d.len() >= 12 && four_at(d, 0, 0x52, 0x49, 0x46, 0x46)
}

/// `II*\0` or `MM\0*`.
pub open spec fn is_tiff(d: Seq<u8>) -> bool {
    four_at(d, 0, 0x49, 0x49, 0x2A, 0x00) || four_at(d, 0, 0x4D, 0x4D, 0x00, 0x2A)
}

/// An `ftyp` box at offset 4 of at least twelve bytes.
pub open spec fn is_bmff(d: Seq<u8>) -> bool {
    d.len() >= 12 && four_at(d, 4, 0x66, 0x74, 0x79, 0x70)
}

/// The extension for the brand at offset 8 of an ISO-BMFF header. The brand
/// is read only from a header of sixteen bytes or more; any other header, and
/// any brand that is not listed, is `mp4`.
pub open spec fn bmff_extension(d: Seq<u8>) -> Seq<char> {
    if d.len() < 16 {
        "mp4"@
    } else if four_at(d, 8, 0x68, 0x65, 0x69, 0x63) {
        "heic"@
    } else if four_at(d, 8, 0x68, 0x65, 0x69, 0x66) {
        "heif"@
    } else if four_at(d, 8, 0x61, 0x76, 0x69, 0x66) {
        "avif"@
    } else if four_at(d, 8, 0x71, 0x74, 0x20, 0x20) {
        "mov"@
    } else if four_at(d, 8, 0x4D, 0x34, 0x41, 0x20) || four_at(d, 8, 0x6D, 0x34, 0x61, 0x66) {
        "m4a"@
    } else {
        "mp4"@
    }
}

/// `%PDF-`.
pub open spec fn is_pdf(d: Seq<u8>) -> bool {
    d.len() >= 5 && four_at(d, 0, 0x25, 0x50, 0x44, 0x46) && d[4] == 0x2D
}

/// An ASCII capital letter as its small letter; any other byte unchanged.
pub open spec fn ascii_lower(b: u8) -> u8 {
    if 0x41 <= b && b <= 0x5A {
        (b + 0x20) as u8
    } else {
        b
    }
}

/// `<svg`, in any mix of capital and small letters, stands in `d` at `at`.
pub open spec fn svg_tag_at(d: Seq<u8>, at: int) -> bool {
    &&& 0 <= at
    &&& at + 4 <= d.len()
    &&& d[at] == 0x3C
    &&& ascii_lower(d[at + 1]) == 0x73
    &&& ascii_lower(d[at + 2]) == 0x76
    &&& ascii_lower(d[at + 3]) == 0x67
}

/// The loose SVG test: at least five bytes, `<` as the first, and a window
/// that is well-formed UTF-8 and holds `<svg` in any letter case.
pub open spec fn is_svg(d: Seq<u8>) -> bool {
    &&& d.len() >= 5
    &&& d[0] == 0x3C
    &&& valid_utf8(sniff_window(d))
    &&& exists|at: int| svg_tag_at(sniff_window(d), at)
}

pub open spec fn is_ico(d: Seq<u8>) -> bool {
    four_at(d, 0, 0x00, 0x00, 0x01, 0x00)
}

/// `BM`.
pub open spec fn is_bmp(d: Seq<u8>) -> bool {
    d.len() >= 2 && d[0] == 0x42 && d[1] == 0x4D
}

/// An `ID3` tag, or an MPEG frame sync: `FF` and a byte whose three high bits are set.
pub open spec fn is_mp3(d: Seq<u8>) -> bool {
    ||| (d.len() >= 3 && d[0] == 0x49 && d[1] == 0x44 && d[2] == 0x33)
    ||| (d.len() >= 2 && d[0] == 0xFF && d[1] >= 0xE0)
}

/// The signature table: the extension of the first signature that matches, in
/// the order of the table, and nothing where none does.
pub open spec fn detected_extension(d: Seq<u8>) -> Option<Seq<char>> {
    if is_jpeg(d) {
        Some("jpg"@)
    } else if is_png(d) {
        Some("png"@)
    } else if is_gif(d) {
        Some("gif"@)
    } else if is_riff(d) && four_at(d, 8, 0x57, 0x45, 0x42, 0x50) {
        Some("webp"@)
    } else if is_riff(d) && four_at(d, 8, 0x57, 0x41, 0x56, 0x45) {
        Some("wav"@)
    } else if is_riff(d) && four_at(d, 8, 0x41, 0x56, 0x49, 0x20) {
        Some("avi"@)
    } else if is_tiff(d) {
        Some("tiff"@)
    } else if is_bmff(d) {
        Some(bmff_extension(d))
    } else if is_pdf(d) {
        Some("pdf"@)
    } else if is_svg(d) {
        Some("svg"@)
    } else if is_ico(d) {
        Some("ico"@)
    } else if is_bmp(d) {
        Some("bmp"@)
    } else if is_mp3(d) {
        Some("mp3"@)
    } else {
        None
    }
}

/// The characters of an optional static string.
pub open spec fn tag_text(tag: Option<&'static str>) -> Option<Seq<char>> {
    match tag {
        Some(s) => Some(s@),
        None => None,
    }
}

fn lower_byte(b: u8) -> (out: u8)
    ensures
        out == ascii_lower(b),
{
    if 0x41 <= b && b <= 0x5A {
        b + 0x20
    } else {
        b
    }
}

/// Whether `<svg` stands somewhere in `head`, in any letter case.
fn holds_svg_tag(head: &[u8]) -> (found: bool)
    ensures
        found == exists|at: int| svg_tag_at(head@, at),
{
    let n = head.len();
    if n < 4 {
        return false;
    }
    let mut i: usize = 0;
    while i <= n - 4
        invariant
            n == head@.len(),
            n >= 4,
            i <= n - 3,
            forall|at: int| 0 <= at < i ==> !svg_tag_at(head@, at),
        decreases n - i,
    {
        if head[i] == 0x3C && lower_byte(head[i + 1]) == 0x73 && lower_byte(head[i + 2]) == 0x76
            && lower_byte(head[i + 3]) == 0x67 {
            assert(svg_tag_at(head@, i as int));
            return true;
        }
        i += 1;
    }
    false
}

fn bmff_brand(data: &[u8]) -> (tag: &'static str)
    ensures
        tag@ == bmff_extension(data@),
{
    if data.len() < 16 {
        "mp4"
    } else if has_four_at(data, 8, 0x68, 0x65, 0x69, 0x63) {
        "heic"
    } else if has_four_at(data, 8, 0x68, 0x65, 0x69, 0x66) {
        "heif"
    } else if has_four_at(data, 8, 0x61, 0x76, 0x69, 0x66) {
        "avif"
    } else if has_four_at(data, 8, 0x71, 0x74, 0x20, 0x20) {
        "mov"
    } else if has_four_at(data, 8, 0x4D, 0x34, 0x41, 0x20) || has_four_at(
        data,
        8,
        0x6D,
        0x34,
        0x61,
        0x66,
    ) {
        "m4a"
    } else {
        "mp4"
    }
}

fn looks_like_svg(data: &[u8]) -> (found: bool)
    ensures
        found == is_svg(data@),
{
    let n = data.len();
    if n < 5 || data[0] != 0x3C {
        return false;
    }
    let end = if n > SNIFF_WINDOW {
        SNIFF_WINDOW
    } else {
        n
    };
    let head = slice_subrange(data, 0, end);
    assert(head@ =~= sniff_window(data@));
    match str_from_utf8(head) {
        Some(_) => holds_svg_tag(head),
        None => false,
    }
}

/// Detects a file format from the first bytes of `data` and returns its
/// extension. The signatures are tried in the order of the table and the first
/// match wins; where none matches, nothing is returned.
pub fn detect_extension_from_bytes(data: &[u8]) -> (tag: Option<&'static str>)
    ensures
        tag_text(tag) == detected_extension(data@),
{
    let n = data.len();
    if n >= 3 && data[0] == 0xFF && data[1] == 0xD8 && data[2] == 0xFF {
        return Some("jpg");
    }
    if has_four_at(data, 0, 0x89, 0x50, 0x4E, 0x47) && has_four_at(data, 4, 0x0D, 0x0A, 0x1A, 0x0A) {
        return Some("png");
    }
    if n >= 6 && has_four_at(data, 0, 0x47, 0x49, 0x46, 0x38) && (data[4] == 0x37 || data[4]
        == 0x39) && data[5] == 0x61 {
        return Some("gif");
    }
    if n >= 12 && has_four_at(data, 0, 0x52, 0x49, 0x46, 0x46) {
        if has_four_at(data, 8, 0x57, 0x45, 0x42, 0x50) {
            return Some("webp");
        }
        if has_four_at(data, 8, 0x57, 0x41, 0x56, 0x45) {
            return Some("wav");
        }
        if has_four_at(data, 8, 0x41, 0x56, 0x49, 0x20) {
            return Some("avi");
        }
    }
    if has_four_at(data, 0, 0x49, 0x49, 0x2A, 0x00) || has_four_at(data, 0, 0x4D, 0x4D, 0x00, 0x2A) {
        return Some("tiff");
    }
    if n >= 12 && has_four_at(data, 4, 0x66, 0x74, 0x79, 0x70) {
        return Some(bmff_brand(data));
    }
    if n >= 5 && has_four_at(data, 0, 0x25, 0x50, 0x44, 0x46) && data[4] == 0x2D {
        return Some("pdf");
    }
    if looks_like_svg(data) {
        return Some("svg");
    }
    if has_four_at(data, 0, 0x00, 0x00, 0x01, 0x00) {
        return Some("ico");
    }
    if n >= 2 && data[0] == 0x42 && data[1] == 0x4D {
        return Some("bmp");
    }
    if n >= 3 && data[0] == 0x49 && data[1] == 0x44 && data[2] == 0x33 {
        return Some("mp3");
    }
    if n >= 2 && data[0] == 0xFF && data[1] >= 0xE0 {
        return Some("mp3");
    }
    None
}

/// Detection looks at no byte beyond the window: the bytes of `d` and its
/// first 512 bytes are detected alike.
pub proof fn lemma_detection_reads_window_only(d: Seq<u8>)
    ensures
        detected_extension(d) == detected_extension(sniff_window(d)),
{
    let w = sniff_window(d);
    assert(sniff_window(w) =~= w);
    if d.len() > 512 {
        assert(forall|i: int| 0 <= i < 512 ==> w[i] == d[i]);
    }
}

/// Bytes that begin with a JPEG start-of-image marker are detected as `jpg`,
/// whatever follows.
pub proof fn lemma_jpeg_marker_wins(d: Seq<u8>)
    requires
        d.len() >= 3,
        d[0] == 0xFF,
        d[1] == 0xD8,
        d[2] == 0xFF,
    ensures
        detected_extension(d) == Some("jpg"@),
{
}

/// Bytes that begin with the PNG signature are detected as `png`.
pub proof fn lemma_png_signature_wins(d: Seq<u8>)
    requires
        is_png(d),
    ensures
        detected_extension(d) == Some("png"@),
{
}

/// Bytes that begin with `GIF87a` or `GIF89a` are detected as `gif`.
pub proof fn lemma_gif_signature_wins(d: Seq<u8>)
    requires
        is_gif(d),
    ensures
        detected_extension(d) == Some("gif"@),
{
}

/// A RIFF container is detected by its subtype at offset 8, and as nothing
/// else by its first twelve bytes: `WEBP` is `webp`, `WAVE` is `wav`, `AVI `
/// is `avi`.
pub proof fn lemma_riff_subtypes(d: Seq<u8>)
    requires
        is_riff(d),
    ensures
        four_at(d, 8, 0x57, 0x45, 0x42, 0x50) ==> detected_extension(d) == Some("webp"@),
        four_at(d, 8, 0x57, 0x41, 0x56, 0x45) ==> detected_extension(d) == Some("wav"@),
        four_at(d, 8, 0x41, 0x56, 0x49, 0x20) ==> detected_extension(d) == Some("avi"@),
{
}

/// Bytes that begin with a TIFF marker of either byte order are detected as `tiff`.
pub proof fn lemma_tiff_signature_wins(d: Seq<u8>)
    requires
        is_tiff(d),
    ensures
        detected_extension(d) == Some("tiff"@),
{
}

/// Bytes that begin with `%PDF-` are detected as `pdf`.
pub proof fn lemma_pdf_signature_wins(d: Seq<u8>)
    requires
        is_pdf(d),
    ensures
        detected_extension(d) == Some("pdf"@),
{
}

/// An `ftyp` box is detected by its brand unless a signature at the start
/// of the bytes comes first in the table.
pub proof fn lemma_bmff_brand_decides(d: Seq<u8>)
    requires
        is_bmff(d),
        !is_jpeg(d),
        !is_png(d),
        !is_gif(d),
        !is_riff(d),
        !is_tiff(d),
    ensures
        detected_extension(d) == Some(bmff_extension(d)),
{
}

/// The signatures at the end of the table decide where nothing before them
/// matches: an icon, a bitmap, an MP3 tag or frame.
pub proof fn lemma_late_signatures(d: Seq<u8>)
    requires
        !is_jpeg(d),
        !is_png(d),
        !is_gif(d),
        !is_riff(d),
        !is_tiff(d),
        !is_bmff(d),
        !is_pdf(d),
        !is_svg(d),
    ensures
        is_ico(d) ==> detected_extension(d) == Some("ico"@),
        !is_ico(d) && is_bmp(d) ==> detected_extension(d) == Some("bmp"@),
        !is_ico(d) && !is_bmp(d) && is_mp3(d) ==> detected_extension(d) == Some("mp3"@),
        !is_ico(d) && !is_bmp(d) && !is_mp3(d) ==> detected_extension(d) is None,
{
}

/// Nothing is detected in fewer than two bytes.
pub proof fn lemma_short_input_is_unknown(d: Seq<u8>)
    requires
        d.len() < 2,
    ensures
        detected_extension(d) is None,
{
}

/// The MIME type for a file extension; `application/octet-stream` for an
/// extension that is not listed.
pub open spec fn mime_type_of(extension: Seq<char>) -> Seq<char> {
    if extension == "jpg"@ || extension == "jpeg"@ {
        "image/jpeg"@
    } else if extension == "png"@ {
        "image/png"@
    } else if extension == "gif"@ {
        "image/gif"@
    } else if extension == "webp"@ {
        "image/webp"@
    } else if extension == "wav"@ {
        "audio/wav"@
    } else if extension == "avi"@ {
        "video/msvideo"@
    } else if extension == "tiff"@ || extension == "tif"@ {
        "image/tiff"@
    } else if extension == "heic"@ {
        "image/heic"@
    } else if extension == "heif"@ {
        "image/heif"@
    } else if extension == "avif"@ {
        "image/avif"@
    } else if extension == "mp4"@ {
        "video/mp4"@
    } else if extension == "mov"@ {
        "video/quicktime"@
    } else if extension == "m4a"@ {
        "audio/mp4"@
    } else if extension == "mp3"@ {
        "audio/mpeg"@
    } else if extension == "pdf"@ {
        "application/pdf"@
    } else if extension == "svg"@ {
        "image/svg+xml"@
    } else {
        "application/octet-stream"@
    }
}

/// Converts a file extension to its MIME type.
pub fn extension_to_mime_type(extension: &str) -> (mime: &'static str)
    ensures
        mime@ == mime_type_of(extension@),
{
    if str_eq(extension, "jpg") || str_eq(extension, "jpeg") {
        "image/jpeg"
    } else if str_eq(extension, "png") {
        "image/png"
    } else if str_eq(extension, "gif") {
        "image/gif"
    } else if str_eq(extension, "webp") {
        "image/webp"
    } else if str_eq(extension, "wav") {
        "audio/wav"
    } else if str_eq(extension, "avi") {
        "video/msvideo"
    } else if str_eq(extension, "tiff") || str_eq(extension, "tif") {
        "image/tiff"
    } else if str_eq(extension, "heic") {
        "image/heic"
    } else if str_eq(extension, "heif") {
        "image/heif"
    } else if str_eq(extension, "avif") {
        "image/avif"
    } else if str_eq(extension, "mp4") {
        "video/mp4"
    } else if str_eq(extension, "mov") {
        "video/quicktime"
    } else if str_eq(extension, "m4a") {
        "audio/mp4"
    } else if str_eq(extension, "mp3") {
        "audio/mpeg"
    } else if str_eq(extension, "pdf") {
        "application/pdf"
    } else if str_eq(extension, "svg") {
        "image/svg+xml"
    } else {
        "application/octet-stream"
    }
}

} // verus!
