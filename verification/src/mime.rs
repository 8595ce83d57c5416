//! Guessing a MIME type from the extension of a file path.
use std::path::Path;
use vstd::prelude::*;
use crate::text::chars_of;

verus! {

/// `std::path::Path`, carried through as an opaque value.
#[verifier::external_type_specification]
#[verifier::external_body]
pub struct ExPath(Path);

/// What `Path::extension` followed by `OsStr::to_str` gives for `path`: the text after the
/// last `.` of the file name (the final component, as the build target splits paths), or
/// `None` when there is no file name, when the file name holds no `.` other than a leading
/// one (as in `.bashrc`), or when the extension is not valid UTF-8.
pub uninterp spec fn utf8_extension(path: &Path) -> Option<Seq<char>>;

/// ASCII lower-casing of one character: `A`..=`Z` become `a`..=`z`, all else is kept.
pub open spec fn ascii_lower(c: char) -> char {
    if 'A' <= c && c <= 'Z' {
        ((c as u32) + 32) as char
    } else {
        c
    }
}

/// ASCII lower-casing of a string, as `str::to_ascii_lowercase` does it.
pub open spec fn ascii_lowercase(s: Seq<char>) -> Seq<char> {
    s.map_values(|c: char| ascii_lower(c))
}

/// The view of an optional string slice.
pub open spec fn str_option_view(o: Option<&str>) -> Option<Seq<char>> {
    match o {
        Some(s) => Some(s@),
        None => None,
    }
}

/// Picks the first of two optional results that is present.
pub open spec fn first_of(a: Option<Seq<char>>, b: Option<Seq<char>>) -> Option<Seq<char>> {
    match a {
        Some(x) => Some(x),
        None => b,
    }
}

/// Plain-text and markup formats.
/// The MIME type that this table gives a lower-case extension, if any.
pub open spec fn text_mime(ext: Seq<char>) -> Option<Seq<char>> {
    if ext == "txt"@ || ext == "text"@ || ext == "log"@ {
        Some("text/plain"@)
    } else if ext == "html"@ || ext == "htm"@ {
        Some("text/html"@)
    } else if ext == "css"@ {
        Some("text/css"@)
    } else if ext == "csv"@ {
        Some("text/csv"@)
    } else if ext == "xml"@ {
        Some("text/xml"@)
    } else if ext == "md"@ || ext == "markdown"@ {
        Some("text/markdown"@)
    } else if ext == "yaml"@ || ext == "yml"@ {
        Some("text/yaml"@)
    } else if ext == "ics"@ {
        Some("text/calendar"@)
    } else if ext == "rtf"@ {
        Some("text/rtf"@)
    } else {
        None
    }
}

/// Data, archive and script formats.
/// The MIME type that this table gives a lower-case extension, if any.
pub open spec fn application_mime(ext: Seq<char>) -> Option<Seq<char>> {
    if ext == "json"@ {
        Some("application/json"@)
    } else if ext == "pdf"@ {
        Some("application/pdf"@)
    } else if ext == "zip"@ {
        Some("application/zip"@)
    } else if ext == "gz"@ || ext == "gzip"@ {
        Some("application/gzip"@)
    } else if ext == "tar"@ {
        Some("application/x-tar"@)
    } else if ext == "7z"@ {
        Some("application/x-7z-compressed"@)
    } else if ext == "rar"@ {
        Some("application/vnd.rar"@)
    } else if ext == "js"@ || ext == "mjs"@ {
        Some("application/javascript"@)
    } else if ext == "wasm"@ {
        Some("application/wasm"@)
    } else if ext == "xhtml"@ {
        Some("application/xhtml+xml"@)
    } else if ext == "eml"@ {
        Some("message/rfc822"@)
    } else {
        None
    }
}

/// Microsoft Office documents, modern and legacy.
/// The MIME type that this table gives a lower-case extension, if any.
pub open spec fn office_mime(ext: Seq<char>) -> Option<Seq<char>> {
    if ext == "docx"@ {
        Some("application/vnd.openxmlformats-officedocument.wordprocessingml.document"@)
    } else if ext == "xlsx"@ {
        Some("application/vnd.openxmlformats-officedocument.spreadsheetml.sheet"@)
    } else if ext == "pptx"@ {
        Some("application/vnd.openxmlformats-officedocument.presentationml.presentation"@)
    } else if ext == "doc"@ {
        Some("application/msword"@)
    } else if ext == "xls"@ {
        Some("application/vnd.ms-excel"@)
    } else if ext == "ppt"@ {
        Some("application/vnd.ms-powerpoint"@)
    } else {
        None
    }
}

/// Raster and vector images.
/// The MIME type that this table gives a lower-case extension, if any.
pub open spec fn image_mime(ext: Seq<char>) -> Option<Seq<char>> {
    if ext == "png"@ {
        Some("image/png"@)
    } else if ext == "jpg"@ || ext == "jpeg"@ {
        Some("image/jpeg"@)
    } else if ext == "gif"@ {
        Some("image/gif"@)
    } else if ext == "svg"@ {
        Some("image/svg+xml"@)
    } else if ext == "webp"@ {
        Some("image/webp"@)
    } else if ext == "ico"@ {
        Some("image/x-icon"@)
    } else if ext == "bmp"@ {
        Some("image/bmp"@)
    } else if ext == "tiff"@ || ext == "tif"@ {
        Some("image/tiff"@)
    } else {
        None
    }
}

/// Audio formats.
/// The MIME type that this table gives a lower-case extension, if any.
pub open spec fn audio_mime(ext: Seq<char>) -> Option<Seq<char>> {
    if ext == "mp3"@ {
        Some("audio/mpeg"@)
    } else if ext == "wav"@ {
        Some("audio/wav"@)
    } else if ext == "ogg"@ {
        Some("audio/ogg"@)
    } else if ext == "flac"@ {
        Some("audio/flac"@)
    } else if ext == "aac"@ {
        Some("audio/aac"@)
    } else {
        None
    }
}

/// Video formats.
/// The MIME type that this table gives a lower-case extension, if any.
pub open spec fn video_mime(ext: Seq<char>) -> Option<Seq<char>> {
    if ext == "mp4"@ {
        Some("video/mp4"@)
    } else if ext == "webm"@ {
        Some("video/webm"@)
    } else if ext == "avi"@ {
        Some("video/x-msvideo"@)
    } else if ext == "mov"@ {
        Some("video/quicktime"@)
    } else if ext == "mkv"@ {
        Some("video/x-matroska"@)
    } else {
        None
    }
}

/// Web and desktop fonts.
/// The MIME type that this table gives a lower-case extension, if any.
pub open spec fn font_mime(ext: Seq<char>) -> Option<Seq<char>> {
    if ext == "woff"@ {
        Some("font/woff"@)
    } else if ext == "woff2"@ {
        Some("font/woff2"@)
    } else if ext == "ttf"@ {
        Some("font/ttf"@)
    } else if ext == "otf"@ {
        Some("font/otf"@)
    } else {
        None
    }
}

/// The whole table: the MIME type of a lower-case extension, or `None` for one not listed.
pub open spec fn mime_type_of(ext: Seq<char>) -> Option<Seq<char>> {
    first_of(text_mime(ext), first_of(application_mime(ext), first_of(office_mime(ext),
    first_of(image_mime(ext), first_of(audio_mime(ext), first_of(video_mime(ext), font_mime(ext)))))))
}

/// The MIME type of an extension, compared without regard to ASCII case.
pub open spec fn mime_for_extension_spec(ext: Seq<char>) -> Option<Seq<char>> {
    mime_type_of(ascii_lowercase(ext))
}

/// Compares one character, lower-cased as ASCII, with another.
fn lower_char_is(c: char, l: char) -> (b: bool)
    ensures
        b == (ascii_lower(c) == l),
{
    if 'A' <= c && c <= 'Z' {
        (c as u32) + 32 == (l as u32)
    } else {
        c == l
    }
}

/// Whether `ext`, lower-cased as ASCII, is exactly `lit`.
fn lower_matches(ext: &Vec<char>, lit: &str) -> (b: bool)
    ensures
        b == (ascii_lowercase(ext@) == lit@),
{
    let n: usize = lit.unicode_len();
    if ext.len() != n {
        return false;
    }
    let mut i: usize = 0;
    while i < n
        invariant
            n == lit@.len(),
            ext@.len() == n,
            i <= n,
            forall|k: int| 0 <= k < i ==> ascii_lower(ext@[k]) == lit@[k],
        decreases n - i,
    {
        if !lower_char_is(ext[i], lit.get_char(i)) {
            return false;
        }
        i = i + 1;
    }
    assert(ascii_lowercase(ext@) =~= lit@);
    true
}

fn lookup_text(ext: &Vec<char>) -> (r: Option<&'static str>)
    ensures
        str_option_view(r) == text_mime(ascii_lowercase(ext@)),
{
    if lower_matches(ext, "txt") || lower_matches(ext, "text") || lower_matches(ext, "log") {
        Some("text/plain")
    } else if lower_matches(ext, "html") || lower_matches(ext, "htm") {
        Some("text/html")
    } else if lower_matches(ext, "css") {
        Some("text/css")
    } else if lower_matches(ext, "csv") {
        Some("text/csv")
    } else if lower_matches(ext, "xml") {
        Some("text/xml")
    } else if lower_matches(ext, "md") || lower_matches(ext, "markdown") {
        Some("text/markdown")
    } else if lower_matches(ext, "yaml") || lower_matches(ext, "yml") {
        Some("text/yaml")
    } else if lower_matches(ext, "ics") {
        Some("text/calendar")
    } else if lower_matches(ext, "rtf") {
        Some("text/rtf")
    } else {
        None
    }
}

fn lookup_application(ext: &Vec<char>) -> (r: Option<&'static str>)
    ensures
        str_option_view(r) == application_mime(ascii_lowercase(ext@)),
{
    if lower_matches(ext, "json") {
        Some("application/json")
    } else if lower_matches(ext, "pdf") {
        Some("application/pdf")
    } else if lower_matches(ext, "zip") {
        Some("application/zip")
    } else if lower_matches(ext, "gz") || lower_matches(ext, "gzip") {
        Some("application/gzip")
    } else if lower_matches(ext, "tar") {
        Some("application/x-tar")
    } else if lower_matches(ext, "7z") {
        Some("application/x-7z-compressed")
    } else if lower_matches(ext, "rar") {
        Some("application/vnd.rar")
    } else if lower_matches(ext, "js") || lower_matches(ext, "mjs") {
        Some("application/javascript")
    } else if lower_matches(ext, "wasm") {
        Some("application/wasm")
    } else if lower_matches(ext, "xhtml") {
        Some("application/xhtml+xml")
    } else if lower_matches(ext, "eml") {
        Some("message/rfc822")
    } else {
        None
    }
}

fn lookup_office(ext: &Vec<char>) -> (r: Option<&'static str>)
    ensures
        str_option_view(r) == office_mime(ascii_lowercase(ext@)),
{
    if lower_matches(ext, "docx") {
        Some("application/vnd.openxmlformats-officedocument.wordprocessingml.document")
    } else if lower_matches(ext, "xlsx") {
        Some("application/vnd.openxmlformats-officedocument.spreadsheetml.sheet")
    } else if lower_matches(ext, "pptx") {
        Some("application/vnd.openxmlformats-officedocument.presentationml.presentation")
    } else if lower_matches(ext, "doc") {
        Some("application/msword")
    } else if lower_matches(ext, "xls") {
        Some("application/vnd.ms-excel")
    } else if lower_matches(ext, "ppt") {
        Some("application/vnd.ms-powerpoint")
    } else {
        None
    }
}

fn lookup_image(ext: &Vec<char>) -> (r: Option<&'static str>)
    ensures
        str_option_view(r) == image_mime(ascii_lowercase(ext@)),
{
    if lower_matches(ext, "png") {
        Some("image/png")
    } else if lower_matches(ext, "jpg") || lower_matches(ext, "jpeg") {
        Some("image/jpeg")
    } else if lower_matches(ext, "gif") {
        Some("image/gif")
    } else if lower_matches(ext, "svg") {
        Some("image/svg+xml")
    } else if lower_matches(ext, "webp") {
        Some("image/webp")
    } else if lower_matches(ext, "ico") {
        Some("image/x-icon")
    } else if lower_matches(ext, "bmp") {
        Some("image/bmp")
    } else if lower_matches(ext, "tiff") || lower_matches(ext, "tif") {
        Some("image/tiff")
    } else {
        None
    }
}

fn lookup_audio(ext: &Vec<char>) -> (r: Option<&'static str>)
    ensures
        str_option_view(r) == audio_mime(ascii_lowercase(ext@)),
{
    if lower_matches(ext, "mp3") {
        Some("audio/mpeg")
    } else if lower_matches(ext, "wav") {
        Some("audio/wav")
    } else if lower_matches(ext, "ogg") {
        Some("audio/ogg")
    } else if lower_matches(ext, "flac") {
        Some("audio/flac")
    } else if lower_matches(ext, "aac") {
        Some("audio/aac")
    } else {
        None
    }
}

fn lookup_video(ext: &Vec<char>) -> (r: Option<&'static str>)
    ensures
        str_option_view(r) == video_mime(ascii_lowercase(ext@)),
{
    if lower_matches(ext, "mp4") {
        Some("video/mp4")
    } else if lower_matches(ext, "webm") {
        Some("video/webm")
    } else if lower_matches(ext, "avi") {
        Some("video/x-msvideo")
    } else if lower_matches(ext, "mov") {
        Some("video/quicktime")
    } else if lower_matches(ext, "mkv") {
        Some("video/x-matroska")
    } else {
        None
    }
}

fn lookup_font(ext: &Vec<char>) -> (r: Option<&'static str>)
    ensures
        str_option_view(r) == font_mime(ascii_lowercase(ext@)),
{
    if lower_matches(ext, "woff") {
        Some("font/woff")
    } else if lower_matches(ext, "woff2") {
        Some("font/woff2")
    } else if lower_matches(ext, "ttf") {
        Some("font/ttf")
    } else if lower_matches(ext, "otf") {
        Some("font/otf")
    } else {
        None
    }
}

/// The MIME type for a file extension, compared without regard to ASCII case
/// (`Jpg`, `JPG` and `jpg` are one), or `None` for an extension not in the table.
pub fn mime_for_extension(ext: &str) -> (r: Option<&'static str>)
    ensures
        str_option_view(r) == mime_for_extension_spec(ext@),
{
    let e = chars_of(ext);
    let r = lookup_text(&e);
    if r.is_some() {
        return r;
    }
    let r = lookup_application(&e);
    if r.is_some() {
        return r;
    }
    let r = lookup_office(&e);
    if r.is_some() {
        return r;
    }
    let r = lookup_image(&e);
    if r.is_some() {
        return r;
    }
    let r = lookup_audio(&e);
    if r.is_some() {
        return r;
    }
    let r = lookup_video(&e);
    if r.is_some() {
        return r;
    }
    lookup_font(&e)
}

/// The lookup is case-insensitive: extensions that agree once lower-cased as ASCII
/// (such as `JPG`, `Jpg` and `jpg`) get the same MIME type.
pub proof fn law_mime_ignores_ascii_case(a: Seq<char>, b: Seq<char>)
    requires
        ascii_lowercase(a) == ascii_lowercase(b),
    ensures
        mime_for_extension_spec(a) == mime_for_extension_spec(b),
{
}

/// Lower-casing an extension before the lookup changes nothing.
pub proof fn law_mime_of_lowercased(ext: Seq<char>)
    ensures
        mime_for_extension_spec(ascii_lowercase(ext)) == mime_for_extension_spec(ext),
{
    assert(ascii_lowercase(ascii_lowercase(ext)) =~= ascii_lowercase(ext));
}

/// An extension without ASCII capitals is looked up as it is.
pub proof fn law_lowercase_extension_looked_up_as_is(ext: Seq<char>)
    requires
        forall|i: int| 0 <= i < ext.len() ==> !(0x41 <= (#[trigger] ext[i]) as u32 && (ext[i] as u32) <= 0x5a),
    ensures
        mime_for_extension_spec(ext) == mime_type_of(ext),
{
    assert(ascii_lowercase(ext) =~= ext);
}

/// Lower-casing changes exactly the ASCII capitals `A`..=`Z`, each to the letter 32 code
/// points above it, and keeps every other character.
pub proof fn law_ascii_lowercase(s: Seq<char>)
    ensures
        ascii_lowercase(s).len() == s.len(),
        forall|i: int|
            0 <= i < s.len() ==> if 0x41 <= (#[trigger] s[i]) as u32 && (s[i] as u32) <= 0x5a {
                ascii_lowercase(s)[i] as u32 == (s[i] as u32) + 32
            } else {
                ascii_lowercase(s)[i] == s[i]
            },
{
}

/// Only the listed extensions have a MIME type; every other one gets `None`.
pub proof fn law_only_listed_extensions(ext: Seq<char>)
    ensures
        mime_type_of(ext) is Some ==> (ext == "txt"@ || ext == "text"@ || ext == "log"@ || ext == "html"@ || ext == "htm"@ || ext == "css"@ || ext == "csv"@ || ext == "xml"@ || ext == "md"@ || ext == "markdown"@ || ext == "yaml"@ || ext == "yml"@ || ext == "ics"@ || ext == "rtf"@ || ext == "json"@ || ext == "pdf"@ || ext == "zip"@ || ext == "gz"@ || ext == "gzip"@ || ext == "tar"@ || ext == "7z"@ || ext == "rar"@ || ext == "js"@ || ext == "mjs"@ || ext == "wasm"@ || ext == "xhtml"@ || ext == "eml"@ || ext == "docx"@ || ext == "xlsx"@ || ext == "pptx"@ || ext == "doc"@ || ext == "xls"@ || ext == "ppt"@ || ext == "png"@ || ext == "jpg"@ || ext == "jpeg"@ || ext == "gif"@ || ext == "svg"@ || ext == "webp"@ || ext == "ico"@ || ext == "bmp"@ || ext == "tiff"@ || ext == "tif"@ || ext == "mp3"@ || ext == "wav"@ || ext == "ogg"@ || ext == "flac"@ || ext == "aac"@ || ext == "mp4"@ || ext == "webm"@ || ext == "avi"@ || ext == "mov"@ || ext == "mkv"@ || ext == "woff"@ || ext == "woff2"@ || ext == "ttf"@ || ext == "otf"@),
{
}

/// Calls `Path::extension` and converts the `OsStr` it gives to a `&str` with
/// `OsStr::to_str`; the conversion is kept here because the `OsStr` type cannot be named
/// in the library. The contract names the result `utf8_extension(path)` and claims
/// nothing more of it.
#[verifier::external_body]
fn extension_str(path: &Path) -> (res: Option<&str>)
    ensures
        str_option_view(res) == utf8_extension(path),
{
    match path.extension() {
        Some(e) => e.to_str(),
        None => None,
    }
}

/// Guesses the MIME type from a file path's extension.
/// Returns `None` when the path has no (UTF-8) extension or the extension is not recognized.
pub fn guess_mime(path: &Path) -> (r: Option<&'static str>)
    ensures
        str_option_view(r) == match utf8_extension(path) {
            Some(ext) => mime_for_extension_spec(ext),
            None => None,
        },
{
    match extension_str(path) {
        Some(ext) => mime_for_extension(ext),
        None => None,
    }
}

} // verus!
