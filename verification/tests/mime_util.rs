use google_workspace_cli::mime::{guess_mime, mime_for_extension};
use std::path::Path;

#[test]
fn common_text_types() {
    assert_eq!(guess_mime(Path::new("file.txt")), Some("text/plain"));
    assert_eq!(guess_mime(Path::new("page.html")), Some("text/html"));
    assert_eq!(guess_mime(Path::new("data.csv")), Some("text/csv"));
    assert_eq!(guess_mime(Path::new("notes.md")), Some("text/markdown"));
    assert_eq!(guess_mime(Path::new("style.css")), Some("text/css"));
}

#[test]
fn common_application_types() {
    assert_eq!(guess_mime(Path::new("doc.pdf")), Some("application/pdf"));
    assert_eq!(guess_mime(Path::new("data.json")), Some("application/json"));
    assert_eq!(
        guess_mime(Path::new("archive.zip")),
        Some("application/zip")
    );
}

#[test]
fn office_documents() {
    assert_eq!(
        guess_mime(Path::new("report.docx")),
        Some("application/vnd.openxmlformats-officedocument.wordprocessingml.document")
    );
    assert_eq!(
        guess_mime(Path::new("sheet.xlsx")),
        Some("application/vnd.openxmlformats-officedocument.spreadsheetml.sheet")
    );
}

#[test]
fn image_types() {
    assert_eq!(guess_mime(Path::new("photo.png")), Some("image/png"));
    assert_eq!(guess_mime(Path::new("photo.jpg")), Some("image/jpeg"));
    assert_eq!(guess_mime(Path::new("photo.jpeg")), Some("image/jpeg"));
    assert_eq!(guess_mime(Path::new("icon.svg")), Some("image/svg+xml"));
}

#[test]
fn case_insensitive() {
    assert_eq!(guess_mime(Path::new("FILE.PDF")), Some("application/pdf"));
    assert_eq!(guess_mime(Path::new("photo.Jpg")), Some("image/jpeg"));
    assert_eq!(guess_mime(Path::new("DATA.JSON")), Some("application/json"));
}

#[test]
fn unknown_extension_returns_none() {
    assert_eq!(guess_mime(Path::new("file.zzqqxx")), None);
    assert_eq!(guess_mime(Path::new("file.unknown")), None);
}

#[test]
fn no_extension_returns_none() {
    assert_eq!(guess_mime(Path::new("Makefile")), None);
    assert_eq!(guess_mime(Path::new("/path/to/noext")), None);
}

#[test]
fn full_paths_work() {
    assert_eq!(
        guess_mime(Path::new("/home/user/docs/file.txt")),
        Some("text/plain")
    );
    assert_eq!(
        guess_mime(Path::new("relative/path/image.png")),
        Some("image/png")
    );
}

#[test]
fn every_group_of_the_table() {
    assert_eq!(mime_for_extension("log"), Some("text/plain"));
    assert_eq!(mime_for_extension("yml"), Some("text/yaml"));
    assert_eq!(mime_for_extension("ics"), Some("text/calendar"));
    assert_eq!(mime_for_extension("7z"), Some("application/x-7z-compressed"));
    assert_eq!(mime_for_extension("mjs"), Some("application/javascript"));
    assert_eq!(mime_for_extension("eml"), Some("message/rfc822"));
    assert_eq!(
        mime_for_extension("pptx"),
        Some("application/vnd.openxmlformats-officedocument.presentationml.presentation")
    );
    assert_eq!(mime_for_extension("xls"), Some("application/vnd.ms-excel"));
    assert_eq!(mime_for_extension("tif"), Some("image/tiff"));
    assert_eq!(mime_for_extension("ico"), Some("image/x-icon"));
    assert_eq!(mime_for_extension("mp3"), Some("audio/mpeg"));
    assert_eq!(mime_for_extension("flac"), Some("audio/flac"));
    assert_eq!(mime_for_extension("avi"), Some("video/x-msvideo"));
    assert_eq!(mime_for_extension("mkv"), Some("video/x-matroska"));
    assert_eq!(mime_for_extension("woff2"), Some("font/woff2"));
    assert_eq!(mime_for_extension("otf"), Some("font/otf"));
}

#[test]
fn lookup_ignores_ascii_case_only() {
    assert_eq!(mime_for_extension("GZIP"), Some("application/gzip"));
    assert_eq!(mime_for_extension("WoFf2"), Some("font/woff2"));
    assert_eq!(mime_for_extension(""), None);
    assert_eq!(mime_for_extension("tx"), None);
    assert_eq!(mime_for_extension("txtx"), None);
    // Only ASCII letters are folded: a dotless capital I is not an `i`.
    assert_eq!(mime_for_extension("\u{130}cs"), None);
}

#[test]
fn extension_is_taken_from_the_last_component() {
    assert_eq!(guess_mime(Path::new("archive.tar.gz")), Some("application/gzip"));
    assert_eq!(guess_mime(Path::new("dir.pdf/README")), None);
    assert_eq!(guess_mime(Path::new(".bashrc")), None);
    assert_eq!(guess_mime(Path::new("trailing.")), None);
    assert_eq!(guess_mime(Path::new("")), None);
}
