//! The MIME table entry by entry: each extension of the table and the type it gets.
//!
//! Each entry is proved from the characters of the string literals involved: the
//! extension differs from every extension listed before it, by length or at a position.
use vstd::prelude::*;
use crate::mime::mime_type_of;

verus! {

proof fn lemma_entry_txt()
    ensures
        mime_type_of("txt"@) == Some("text/plain"@),
{
    reveal_strlit("txt");
}

proof fn lemma_entry_text()
    ensures
        mime_type_of("text"@) == Some("text/plain"@),
{
    reveal_strlit("text");
    reveal_strlit("txt"); assert("txt"@.len() != "text"@.len());
}

proof fn lemma_entry_log()
    ensures
        mime_type_of("log"@) == Some("text/plain"@),
{
    reveal_strlit("log");
    reveal_strlit("txt"); assert("txt"@[0] != "log"@[0]);
    reveal_strlit("text"); assert("text"@.len() != "log"@.len());
}

proof fn lemma_entry_html()
    ensures
        mime_type_of("html"@) == Some("text/html"@),
{
    reveal_strlit("html");
    reveal_strlit("txt"); assert("txt"@.len() != "html"@.len());
    reveal_strlit("text"); assert("text"@[0] != "html"@[0]);
    reveal_strlit("log"); assert("log"@.len() != "html"@.len());
}

proof fn lemma_entry_htm()
    ensures
        mime_type_of("htm"@) == Some("text/html"@),
{
    reveal_strlit("htm");
    reveal_strlit("txt"); assert("txt"@[0] != "htm"@[0]);
    reveal_strlit("text"); assert("text"@.len() != "htm"@.len());
    reveal_strlit("log"); assert("log"@[0] != "htm"@[0]);
    reveal_strlit("html"); assert("html"@.len() != "htm"@.len());
}

proof fn lemma_entry_css()
    ensures
        mime_type_of("css"@) == Some("text/css"@),
{
    reveal_strlit("css");
    reveal_strlit("txt"); assert("txt"@[0] != "css"@[0]);
    reveal_strlit("text"); assert("text"@.len() != "css"@.len());
    reveal_strlit("log"); assert("log"@[0] != "css"@[0]);
    reveal_strlit("html"); assert("html"@.len() != "css"@.len());
    reveal_strlit("htm"); assert("htm"@[0] != "css"@[0]);
}

proof fn lemma_entry_csv()
    ensures
        mime_type_of("csv"@) == Some("text/csv"@),
{
    reveal_strlit("csv");
    reveal_strlit("txt"); assert("txt"@[0] != "csv"@[0]);
    reveal_strlit("text"); assert("text"@.len() != "csv"@.len());
    reveal_strlit("log"); assert("log"@[0] != "csv"@[0]);
    reveal_strlit("html"); assert("html"@.len() != "csv"@.len());
    reveal_strlit("htm"); assert("htm"@[0] != "csv"@[0]);
    reveal_strlit("css"); assert("css"@[2] != "csv"@[2]);
}

proof fn lemma_entry_xml()
    ensures
        mime_type_of("xml"@) == Some("text/xml"@),
{
    reveal_strlit("xml");
    reveal_strlit("txt"); assert("txt"@[0] != "xml"@[0]);
    reveal_strlit("text"); assert("text"@.len() != "xml"@.len());
    reveal_strlit("log"); assert("log"@[0] != "xml"@[0]);
    reveal_strlit("html"); assert("html"@.len() != "xml"@.len());
    reveal_strlit("htm"); assert("htm"@[0] != "xml"@[0]);
    reveal_strlit("css"); assert("css"@[0] != "xml"@[0]);
    reveal_strlit("csv"); assert("csv"@[0] != "xml"@[0]);
}

proof fn lemma_entry_md()
    ensures
        mime_type_of("md"@) == Some("text/markdown"@),
{
    reveal_strlit("md");
    reveal_strlit("txt"); assert("txt"@.len() != "md"@.len());
    reveal_strlit("text"); assert("text"@.len() != "md"@.len());
    reveal_strlit("log"); assert("log"@.len() != "md"@.len());
    reveal_strlit("html"); assert("html"@.len() != "md"@.len());
    reveal_strlit("htm"); assert("htm"@.len() != "md"@.len());
    reveal_strlit("css"); assert("css"@.len() != "md"@.len());
    reveal_strlit("csv"); assert("csv"@.len() != "md"@.len());
    reveal_strlit("xml"); assert("xml"@.len() != "md"@.len());
}

proof fn lemma_entry_markdown()
    ensures
        mime_type_of("markdown"@) == Some("text/markdown"@),
{
    reveal_strlit("markdown");
    reveal_strlit("txt"); assert("txt"@.len() != "markdown"@.len());
    reveal_strlit("text"); assert("text"@.len() != "markdown"@.len());
    reveal_strlit("log"); assert("log"@.len() != "markdown"@.len());
    reveal_strlit("html"); assert("html"@.len() != "markdown"@.len());
    reveal_strlit("htm"); assert("htm"@.len() != "markdown"@.len());
    reveal_strlit("css"); assert("css"@.len() != "markdown"@.len());
    reveal_strlit("csv"); assert("csv"@.len() != "markdown"@.len());
    reveal_strlit("xml"); assert("xml"@.len() != "markdown"@.len());
    reveal_strlit("md"); assert("md"@.len() != "markdown"@.len());
}

proof fn lemma_entry_yaml()
    ensures
        mime_type_of("yaml"@) == Some("text/yaml"@),
{
    reveal_strlit("yaml");
    reveal_strlit("txt"); assert("txt"@.len() != "yaml"@.len());
    reveal_strlit("text"); assert("text"@[0] != "yaml"@[0]);
    reveal_strlit("log"); assert("log"@.len() != "yaml"@.len());
    reveal_strlit("html"); assert("html"@[0] != "yaml"@[0]);
    reveal_strlit("htm"); assert("htm"@.len() != "yaml"@.len());
    reveal_strlit("css"); assert("css"@.len() != "yaml"@.len());
    reveal_strlit("csv"); assert("csv"@.len() != "yaml"@.len());
    reveal_strlit("xml"); assert("xml"@.len() != "yaml"@.len());
    reveal_strlit("md"); assert("md"@.len() != "yaml"@.len());
    reveal_strlit("markdown"); assert("markdown"@.len() != "yaml"@.len());
}

proof fn lemma_entry_yml()
    ensures
        mime_type_of("yml"@) == Some("text/yaml"@),
{
    reveal_strlit("yml");
    reveal_strlit("txt"); assert("txt"@[0] != "yml"@[0]);
    reveal_strlit("text"); assert("text"@.len() != "yml"@.len());
    reveal_strlit("log"); assert("log"@[0] != "yml"@[0]);
    reveal_strlit("html"); assert("html"@.len() != "yml"@.len());
    reveal_strlit("htm"); assert("htm"@[0] != "yml"@[0]);
    reveal_strlit("css"); assert("css"@[0] != "yml"@[0]);
    reveal_strlit("csv"); assert("csv"@[0] != "yml"@[0]);
    reveal_strlit("xml"); assert("xml"@[0] != "yml"@[0]);
    reveal_strlit("md"); assert("md"@.len() != "yml"@.len());
    reveal_strlit("markdown"); assert("markdown"@.len() != "yml"@.len());
    reveal_strlit("yaml"); assert("yaml"@.len() != "yml"@.len());
}

proof fn lemma_entry_ics()
    ensures
        mime_type_of("ics"@) == Some("text/calendar"@),
{
    reveal_strlit("ics");
    reveal_strlit("txt"); assert("txt"@[0] != "ics"@[0]);
    reveal_strlit("text"); assert("text"@.len() != "ics"@.len());
    reveal_strlit("log"); assert("log"@[0] != "ics"@[0]);
    reveal_strlit("html"); assert("html"@.len() != "ics"@.len());
    reveal_strlit("htm"); assert("htm"@[0] != "ics"@[0]);
    reveal_strlit("css"); assert("css"@[0] != "ics"@[0]);
    reveal_strlit("csv"); assert("csv"@[0] != "ics"@[0]);
    reveal_strlit("xml"); assert("xml"@[0] != "ics"@[0]);
    reveal_strlit("md"); assert("md"@.len() != "ics"@.len());
    reveal_strlit("markdown"); assert("markdown"@.len() != "ics"@.len());
    reveal_strlit("yaml"); assert("yaml"@.len() != "ics"@.len());
    reveal_strlit("yml"); assert("yml"@[0] != "ics"@[0]);
}

proof fn lemma_entry_rtf()
    ensures
        mime_type_of("rtf"@) == Some("text/rtf"@),
{
    reveal_strlit("rtf");
    reveal_strlit("txt"); assert("txt"@[0] != "rtf"@[0]);
    reveal_strlit("text"); assert("text"@.len() != "rtf"@.len());
    reveal_strlit("log"); assert("log"@[0] != "rtf"@[0]);
    reveal_strlit("html"); assert("html"@.len() != "rtf"@.len());
    reveal_strlit("htm"); assert("htm"@[0] != "rtf"@[0]);
    reveal_strlit("css"); assert("css"@[0] != "rtf"@[0]);
    reveal_strlit("csv"); assert("csv"@[0] != "rtf"@[0]);
    reveal_strlit("xml"); assert("xml"@[0] != "rtf"@[0]);
    reveal_strlit("md"); assert("md"@.len() != "rtf"@.len());
    reveal_strlit("markdown"); assert("markdown"@.len() != "rtf"@.len());
    reveal_strlit("yaml"); assert("yaml"@.len() != "rtf"@.len());
    reveal_strlit("yml"); assert("yml"@[0] != "rtf"@[0]);
    reveal_strlit("ics"); assert("ics"@[0] != "rtf"@[0]);
}

/// The table's entries for plain-text and markup formats: each of these extensions gets this MIME type.
pub proof fn law_text_entries()
    ensures
        mime_type_of("txt"@) == Some("text/plain"@),
        mime_type_of("text"@) == Some("text/plain"@),
        mime_type_of("log"@) == Some("text/plain"@),
        mime_type_of("html"@) == Some("text/html"@),
        mime_type_of("htm"@) == Some("text/html"@),
        mime_type_of("css"@) == Some("text/css"@),
        mime_type_of("csv"@) == Some("text/csv"@),
        mime_type_of("xml"@) == Some("text/xml"@),
        mime_type_of("md"@) == Some("text/markdown"@),
        mime_type_of("markdown"@) == Some("text/markdown"@),
        mime_type_of("yaml"@) == Some("text/yaml"@),
        mime_type_of("yml"@) == Some("text/yaml"@),
        mime_type_of("ics"@) == Some("text/calendar"@),
        mime_type_of("rtf"@) == Some("text/rtf"@),
{
    lemma_entry_txt();
    lemma_entry_text();
    lemma_entry_log();
    lemma_entry_html();
    lemma_entry_htm();
    lemma_entry_css();
    lemma_entry_csv();
    lemma_entry_xml();
    lemma_entry_md();
    lemma_entry_markdown();
    lemma_entry_yaml();
    lemma_entry_yml();
    lemma_entry_ics();
    lemma_entry_rtf();
}

proof fn lemma_entry_json()
    ensures
        mime_type_of("json"@) == Some("application/json"@),
{
    reveal_strlit("json");
    reveal_strlit("txt"); assert("txt"@.len() != "json"@.len());
    reveal_strlit("text"); assert("text"@[0] != "json"@[0]);
    reveal_strlit("log"); assert("log"@.len() != "json"@.len());
    reveal_strlit("html"); assert("html"@[0] != "json"@[0]);
    reveal_strlit("htm"); assert("htm"@.len() != "json"@.len());
    reveal_strlit("css"); assert("css"@.len() != "json"@.len());
    reveal_strlit("csv"); assert("csv"@.len() != "json"@.len());
    reveal_strlit("xml"); assert("xml"@.len() != "json"@.len());
    reveal_strlit("md"); assert("md"@.len() != "json"@.len());
    reveal_strlit("markdown"); assert("markdown"@.len() != "json"@.len());
    reveal_strlit("yaml"); assert("yaml"@[0] != "json"@[0]);
    reveal_strlit("yml"); assert("yml"@.len() != "json"@.len());
    reveal_strlit("ics"); assert("ics"@.len() != "json"@.len());
    reveal_strlit("rtf"); assert("rtf"@.len() != "json"@.len());
}

proof fn lemma_entry_pdf()
    ensures
        mime_type_of("pdf"@) == Some("application/pdf"@),
{
    reveal_strlit("pdf");
    reveal_strlit("txt"); assert("txt"@[0] != "pdf"@[0]);
    reveal_strlit("text"); assert("text"@.len() != "pdf"@.len());
    reveal_strlit("log"); assert("log"@[0] != "pdf"@[0]);
    reveal_strlit("html"); assert("html"@.len() != "pdf"@.len());
    reveal_strlit("htm"); assert("htm"@[0] != "pdf"@[0]);
    reveal_strlit("css"); assert("css"@[0] != "pdf"@[0]);
    reveal_strlit("csv"); assert("csv"@[0] != "pdf"@[0]);
    reveal_strlit("xml"); assert("xml"@[0] != "pdf"@[0]);
    reveal_strlit("md"); assert("md"@.len() != "pdf"@.len());
    reveal_strlit("markdown"); assert("markdown"@.len() != "pdf"@.len());
    reveal_strlit("yaml"); assert("yaml"@.len() != "pdf"@.len());
    reveal_strlit("yml"); assert("yml"@[0] != "pdf"@[0]);
    reveal_strlit("ics"); assert("ics"@[0] != "pdf"@[0]);
    reveal_strlit("rtf"); assert("rtf"@[0] != "pdf"@[0]);
    reveal_strlit("json"); assert("json"@.len() != "pdf"@.len());
}

proof fn lemma_entry_zip()
    ensures
        mime_type_of("zip"@) == Some("application/zip"@),
{
    reveal_strlit("zip");
    reveal_strlit("txt"); assert("txt"@[0] != "zip"@[0]);
    reveal_strlit("text"); assert("text"@.len() != "zip"@.len());
    reveal_strlit("log"); assert("log"@[0] != "zip"@[0]);
    reveal_strlit("html"); assert("html"@.len() != "zip"@.len());
    reveal_strlit("htm"); assert("htm"@[0] != "zip"@[0]);
    reveal_strlit("css"); assert("css"@[0] != "zip"@[0]);
    reveal_strlit("csv"); assert("csv"@[0] != "zip"@[0]);
    reveal_strlit("xml"); assert("xml"@[0] != "zip"@[0]);
    reveal_strlit("md"); assert("md"@.len() != "zip"@.len());
    reveal_strlit("markdown"); assert("markdown"@.len() != "zip"@.len());
    reveal_strlit("yaml"); assert("yaml"@.len() != "zip"@.len());
    reveal_strlit("yml"); assert("yml"@[0] != "zip"@[0]);
    reveal_strlit("ics"); assert("ics"@[0] != "zip"@[0]);
    reveal_strlit("rtf"); assert("rtf"@[0] != "zip"@[0]);
    reveal_strlit("json"); assert("json"@.len() != "zip"@.len());
    reveal_strlit("pdf"); assert("pdf"@[0] != "zip"@[0]);
}

proof fn lemma_entry_gz()
    ensures
        mime_type_of("gz"@) == Some("application/gzip"@),
{
    reveal_strlit("gz");
    reveal_strlit("txt"); assert("txt"@.len() != "gz"@.len());
    reveal_strlit("text"); assert("text"@.len() != "gz"@.len());
    reveal_strlit("log"); assert("log"@.len() != "gz"@.len());
    reveal_strlit("html"); assert("html"@.len() != "gz"@.len());
    reveal_strlit("htm"); assert("htm"@.len() != "gz"@.len());
    reveal_strlit("css"); assert("css"@.len() != "gz"@.len());
    reveal_strlit("csv"); assert("csv"@.len() != "gz"@.len());
    reveal_strlit("xml"); assert("xml"@.len() != "gz"@.len());
    reveal_strlit("md"); assert("md"@[0] != "gz"@[0]);
    reveal_strlit("markdown"); assert("markdown"@.len() != "gz"@.len());
    reveal_strlit("yaml"); assert("yaml"@.len() != "gz"@.len());
    reveal_strlit("yml"); assert("yml"@.len() != "gz"@.len());
    reveal_strlit("ics"); assert("ics"@.len() != "gz"@.len());
    reveal_strlit("rtf"); assert("rtf"@.len() != "gz"@.len());
    reveal_strlit("json"); assert("json"@.len() != "gz"@.len());
    reveal_strlit("pdf"); assert("pdf"@.len() != "gz"@.len());
    reveal_strlit("zip"); assert("zip"@.len() != "gz"@.len());
}

proof fn lemma_entry_gzip()
    ensures
        mime_type_of("gzip"@) == Some("application/gzip"@),
{
    reveal_strlit("gzip");
    reveal_strlit("txt"); assert("txt"@.len() != "gzip"@.len());
    reveal_strlit("text"); assert("text"@[0] != "gzip"@[0]);
    reveal_strlit("log"); assert("log"@.len() != "gzip"@.len());
    reveal_strlit("html"); assert("html"@[0] != "gzip"@[0]);
    reveal_strlit("htm"); assert("htm"@.len() != "gzip"@.len());
    reveal_strlit("css"); assert("css"@.len() != "gzip"@.len());
    reveal_strlit("csv"); assert("csv"@.len() != "gzip"@.len());
    reveal_strlit("xml"); assert("xml"@.len() != "gzip"@.len());
    reveal_strlit("md"); assert("md"@.len() != "gzip"@.len());
    reveal_strlit("markdown"); assert("markdown"@.len() != "gzip"@.len());
    reveal_strlit("yaml"); assert("yaml"@[0] != "gzip"@[0]);
    reveal_strlit("yml"); assert("yml"@.len() != "gzip"@.len());
    reveal_strlit("ics"); assert("ics"@.len() != "gzip"@.len());
    reveal_strlit("rtf"); assert("rtf"@.len() != "gzip"@.len());
    reveal_strlit("json"); assert("json"@[0] != "gzip"@[0]);
    reveal_strlit("pdf"); assert("pdf"@.len() != "gzip"@.len());
    reveal_strlit("zip"); assert("zip"@.len() != "gzip"@.len());
    reveal_strlit("gz"); assert("gz"@.len() != "gzip"@.len());
}

proof fn lemma_entry_tar()
    ensures
        mime_type_of("tar"@) == Some("application/x-tar"@),
{
    reveal_strlit("tar");
    reveal_strlit("txt"); assert("txt"@[1] != "tar"@[1]);
    reveal_strlit("text"); assert("text"@.len() != "tar"@.len());
    reveal_strlit("log"); assert("log"@[0] != "tar"@[0]);
    reveal_strlit("html"); assert("html"@.len() != "tar"@.len());
    reveal_strlit("htm"); assert("htm"@[0] != "tar"@[0]);
    reveal_strlit("css"); assert("css"@[0] != "tar"@[0]);
    reveal_strlit("csv"); assert("csv"@[0] != "tar"@[0]);
    reveal_strlit("xml"); assert("xml"@[0] != "tar"@[0]);
    reveal_strlit("md"); assert("md"@.len() != "tar"@.len());
    reveal_strlit("markdown"); assert("markdown"@.len() != "tar"@.len());
    reveal_strlit("yaml"); assert("yaml"@.len() != "tar"@.len());
    reveal_strlit("yml"); assert("yml"@[0] != "tar"@[0]);
    reveal_strlit("ics"); assert("ics"@[0] != "tar"@[0]);
    reveal_strlit("rtf"); assert("rtf"@[0] != "tar"@[0]);
    reveal_strlit("json"); assert("json"@.len() != "tar"@.len());
    reveal_strlit("pdf"); assert("pdf"@[0] != "tar"@[0]);
    reveal_strlit("zip"); assert("zip"@[0] != "tar"@[0]);
    reveal_strlit("gz"); assert("gz"@.len() != "tar"@.len());
    reveal_strlit("gzip"); assert("gzip"@.len() != "tar"@.len());
}

proof fn lemma_entry_7z()
    ensures
        mime_type_of("7z"@) == Some("application/x-7z-compressed"@),
{
    reveal_strlit("7z");
    reveal_strlit("txt"); assert("txt"@.len() != "7z"@.len());
    reveal_strlit("text"); assert("text"@.len() != "7z"@.len());
    reveal_strlit("log"); assert("log"@.len() != "7z"@.len());
    reveal_strlit("html"); assert("html"@.len() != "7z"@.len());
    reveal_strlit("htm"); assert("htm"@.len() != "7z"@.len());
    reveal_strlit("css"); assert("css"@.len() != "7z"@.len());
    reveal_strlit("csv"); assert("csv"@.len() != "7z"@.len());
    reveal_strlit("xml"); assert("xml"@.len() != "7z"@.len());
    reveal_strlit("md"); assert("md"@[0] != "7z"@[0]);
    reveal_strlit("markdown"); assert("markdown"@.len() != "7z"@.len());
    reveal_strlit("yaml"); assert("yaml"@.len() != "7z"@.len());
    reveal_strlit("yml"); assert("yml"@.len() != "7z"@.len());
    reveal_strlit("ics"); assert("ics"@.len() != "7z"@.len());
    reveal_strlit("rtf"); assert("rtf"@.len() != "7z"@.len());
    reveal_strlit("json"); assert("json"@.len() != "7z"@.len());
    reveal_strlit("pdf"); assert("pdf"@.len() != "7z"@.len());
    reveal_strlit("zip"); assert("zip"@.len() != "7z"@.len());
    reveal_strlit("gz"); assert("gz"@[0] != "7z"@[0]);
    reveal_strlit("gzip"); assert("gzip"@.len() != "7z"@.len());
    reveal_strlit("tar"); assert("tar"@.len() != "7z"@.len());
}

proof fn lemma_entry_rar()
    ensures
        mime_type_of("rar"@) == Some("application/vnd.rar"@),
{
    reveal_strlit("rar");
    reveal_strlit("txt"); assert("txt"@[0] != "rar"@[0]);
    reveal_strlit("text"); assert("text"@.len() != "rar"@.len());
    reveal_strlit("log"); assert("log"@[0] != "rar"@[0]);
    reveal_strlit("html"); assert("html"@.len() != "rar"@.len());
    reveal_strlit("htm"); assert("htm"@[0] != "rar"@[0]);
    reveal_strlit("css"); assert("css"@[0] != "rar"@[0]);
    reveal_strlit("csv"); assert("csv"@[0] != "rar"@[0]);
    reveal_strlit("xml"); assert("xml"@[0] != "rar"@[0]);
    reveal_strlit("md"); assert("md"@.len() != "rar"@.len());
    reveal_strlit("markdown"); assert("markdown"@.len() != "rar"@.len());
    reveal_strlit("yaml"); assert("yaml"@.len() != "rar"@.len());
    reveal_strlit("yml"); assert("yml"@[0] != "rar"@[0]);
    reveal_strlit("ics"); assert("ics"@[0] != "rar"@[0]);
    reveal_strlit("rtf"); assert("rtf"@[1] != "rar"@[1]);
    reveal_strlit("json"); assert("json"@.len() != "rar"@.len());
    reveal_strlit("pdf"); assert("pdf"@[0] != "rar"@[0]);
    reveal_strlit("zip"); assert("zip"@[0] != "rar"@[0]);
    reveal_strlit("gz"); assert("gz"@.len() != "rar"@.len());
    reveal_strlit("gzip"); assert("gzip"@.len() != "rar"@.len());
    reveal_strlit("tar"); assert("tar"@[0] != "rar"@[0]);
    reveal_strlit("7z"); assert("7z"@.len() != "rar"@.len());
}

proof fn lemma_entry_js()
    ensures
        mime_type_of("js"@) == Some("application/javascript"@),
{
    reveal_strlit("js");
    reveal_strlit("txt"); assert("txt"@.len() != "js"@.len());
    reveal_strlit("text"); assert("text"@.len() != "js"@.len());
    reveal_strlit("log"); assert("log"@.len() != "js"@.len());
    reveal_strlit("html"); assert("html"@.len() != "js"@.len());
    reveal_strlit("htm"); assert("htm"@.len() != "js"@.len());
    reveal_strlit("css"); assert("css"@.len() != "js"@.len());
    reveal_strlit("csv"); assert("csv"@.len() != "js"@.len());
    reveal_strlit("xml"); assert("xml"@.len() != "js"@.len());
    reveal_strlit("md"); assert("md"@[0] != "js"@[0]);
    reveal_strlit("markdown"); assert("markdown"@.len() != "js"@.len());
    reveal_strlit("yaml"); assert("yaml"@.len() != "js"@.len());
    reveal_strlit("yml"); assert("yml"@.len() != "js"@.len());
    reveal_strlit("ics"); assert("ics"@.len() != "js"@.len());
    reveal_strlit("rtf"); assert("rtf"@.len() != "js"@.len());
    reveal_strlit("json"); assert("json"@.len() != "js"@.len());
    reveal_strlit("pdf"); assert("pdf"@.len() != "js"@.len());
    reveal_strlit("zip"); assert("zip"@.len() != "js"@.len());
    reveal_strlit("gz"); assert("gz"@[0] != "js"@[0]);
    reveal_strlit("gzip"); assert("gzip"@.len() != "js"@.len());
    reveal_strlit("tar"); assert("tar"@.len() != "js"@.len());
    reveal_strlit("7z"); assert("7z"@[0] != "js"@[0]);
    reveal_strlit("rar"); assert("rar"@.len() != "js"@.len());
}

proof fn lemma_entry_mjs()
    ensures
        mime_type_of("mjs"@) == Some("application/javascript"@),
{
    reveal_strlit("mjs");
    reveal_strlit("txt"); assert("txt"@[0] != "mjs"@[0]);
    reveal_strlit("text"); assert("text"@.len() != "mjs"@.len());
    reveal_strlit("log"); assert("log"@[0] != "mjs"@[0]);
    reveal_strlit("html"); assert("html"@.len() != "mjs"@.len());
    reveal_strlit("htm"); assert("htm"@[0] != "mjs"@[0]);
    reveal_strlit("css"); assert("css"@[0] != "mjs"@[0]);
    reveal_strlit("csv"); assert("csv"@[0] != "mjs"@[0]);
    reveal_strlit("xml"); assert("xml"@[0] != "mjs"@[0]);
    reveal_strlit("md"); assert("md"@.len() != "mjs"@.len());
    reveal_strlit("markdown"); assert("markdown"@.len() != "mjs"@.len());
    reveal_strlit("yaml"); assert("yaml"@.len() != "mjs"@.len());
    reveal_strlit("yml"); assert("yml"@[0] != "mjs"@[0]);
    reveal_strlit("ics"); assert("ics"@[0] != "mjs"@[0]);
    reveal_strlit("rtf"); assert("rtf"@[0] != "mjs"@[0]);
    reveal_strlit("json"); assert("json"@.len() != "mjs"@.len());
    reveal_strlit("pdf"); assert("pdf"@[0] != "mjs"@[0]);
    reveal_strlit("zip"); assert("zip"@[0] != "mjs"@[0]);
    reveal_strlit("gz"); assert("gz"@.len() != "mjs"@.len());
    reveal_strlit("gzip"); assert("gzip"@.len() != "mjs"@.len());
    reveal_strlit("tar"); assert("tar"@[0] != "mjs"@[0]);
    reveal_strlit("7z"); assert("7z"@.len() != "mjs"@.len());
    reveal_strlit("rar"); assert("rar"@[0] != "mjs"@[0]);
    reveal_strlit("js"); assert("js"@.len() != "mjs"@.len());
}

proof fn lemma_entry_wasm()
    ensures
        mime_type_of("wasm"@) == Some("application/wasm"@),
{
    reveal_strlit("wasm");
    reveal_strlit("txt"); assert("txt"@.len() != "wasm"@.len());
    reveal_strlit("text"); assert("text"@[0] != "wasm"@[0]);
    reveal_strlit("log"); assert("log"@.len() != "wasm"@.len());
    reveal_strlit("html"); assert("html"@[0] != "wasm"@[0]);
    reveal_strlit("htm"); assert("htm"@.len() != "wasm"@.len());
    reveal_strlit("css"); assert("css"@.len() != "wasm"@.len());
    reveal_strlit("csv"); assert("csv"@.len() != "wasm"@.len());
    reveal_strlit("xml"); assert("xml"@.len() != "wasm"@.len());
    reveal_strlit("md"); assert("md"@.len() != "wasm"@.len());
    reveal_strlit("markdown"); assert("markdown"@.len() != "wasm"@.len());
    reveal_strlit("yaml"); assert("yaml"@[0] != "wasm"@[0]);
    reveal_strlit("yml"); assert("yml"@.len() != "wasm"@.len());
    reveal_strlit("ics"); assert("ics"@.len() != "wasm"@.len());
    reveal_strlit("rtf"); assert("rtf"@.len() != "wasm"@.len());
    reveal_strlit("json"); assert("json"@[0] != "wasm"@[0]);
    reveal_strlit("pdf"); assert("pdf"@.len() != "wasm"@.len());
    reveal_strlit("zip"); assert("zip"@.len() != "wasm"@.len());
    reveal_strlit("gz"); assert("gz"@.len() != "wasm"@.len());
    reveal_strlit("gzip"); assert("gzip"@[0] != "wasm"@[0]);
    reveal_strlit("tar"); assert("tar"@.len() != "wasm"@.len());
    reveal_strlit("7z"); assert("7z"@.len() != "wasm"@.len());
    reveal_strlit("rar"); assert("rar"@.len() != "wasm"@.len());
    reveal_strlit("js"); assert("js"@.len() != "wasm"@.len());
    reveal_strlit("mjs"); assert("mjs"@.len() != "wasm"@.len());
}

proof fn lemma_entry_xhtml()
    ensures
        mime_type_of("xhtml"@) == Some("application/xhtml+xml"@),
{
    reveal_strlit("xhtml");
    reveal_strlit("txt"); assert("txt"@.len() != "xhtml"@.len());
    reveal_strlit("text"); assert("text"@.len() != "xhtml"@.len());
    reveal_strlit("log"); assert("log"@.len() != "xhtml"@.len());
    reveal_strlit("html"); assert("html"@.len() != "xhtml"@.len());
    reveal_strlit("htm"); assert("htm"@.len() != "xhtml"@.len());
    reveal_strlit("css"); assert("css"@.len() != "xhtml"@.len());
    reveal_strlit("csv"); assert("csv"@.len() != "xhtml"@.len());
    reveal_strlit("xml"); assert("xml"@.len() != "xhtml"@.len());
    reveal_strlit("md"); assert("md"@.len() != "xhtml"@.len());
    reveal_strlit("markdown"); assert("markdown"@.len() != "xhtml"@.len());
    reveal_strlit("yaml"); assert("yaml"@.len() != "xhtml"@.len());
    reveal_strlit("yml"); assert("yml"@.len() != "xhtml"@.len());
    reveal_strlit("ics"); assert("ics"@.len() != "xhtml"@.len());
    reveal_strlit("rtf"); assert("rtf"@.len() != "xhtml"@.len());
    reveal_strlit("json"); assert("json"@.len() != "xhtml"@.len());
    reveal_strlit("pdf"); assert("pdf"@.len() != "xhtml"@.len());
    reveal_strlit("zip"); assert("zip"@.len() != "xhtml"@.len());
    reveal_strlit("gz"); assert("gz"@.len() != "xhtml"@.len());
    reveal_strlit("gzip"); assert("gzip"@.len() != "xhtml"@.len());
    reveal_strlit("tar"); assert("tar"@.len() != "xhtml"@.len());
    reveal_strlit("7z"); assert("7z"@.len() != "xhtml"@.len());
    reveal_strlit("rar"); assert("rar"@.len() != "xhtml"@.len());
    reveal_strlit("js"); assert("js"@.len() != "xhtml"@.len());
    reveal_strlit("mjs"); assert("mjs"@.len() != "xhtml"@.len());
    reveal_strlit("wasm"); assert("wasm"@.len() != "xhtml"@.len());
}

proof fn lemma_entry_eml()
    ensures
        mime_type_of("eml"@) == Some("message/rfc822"@),
{
    reveal_strlit("eml");
    reveal_strlit("txt"); assert("txt"@[0] != "eml"@[0]);
    reveal_strlit("text"); assert("text"@.len() != "eml"@.len());
    reveal_strlit("log"); assert("log"@[0] != "eml"@[0]);
    reveal_strlit("html"); assert("html"@.len() != "eml"@.len());
    reveal_strlit("htm"); assert("htm"@[0] != "eml"@[0]);
    reveal_strlit("css"); assert("css"@[0] != "eml"@[0]);
    reveal_strlit("csv"); assert("csv"@[0] != "eml"@[0]);
    reveal_strlit("xml"); assert("xml"@[0] != "eml"@[0]);
    reveal_strlit("md"); assert("md"@.len() != "eml"@.len());
    reveal_strlit("markdown"); assert("markdown"@.len() != "eml"@.len());
    reveal_strlit("yaml"); assert("yaml"@.len() != "eml"@.len());
    reveal_strlit("yml"); assert("yml"@[0] != "eml"@[0]);
    reveal_strlit("ics"); assert("ics"@[0] != "eml"@[0]);
    reveal_strlit("rtf"); assert("rtf"@[0] != "eml"@[0]);
    reveal_strlit("json"); assert("json"@.len() != "eml"@.len());
    reveal_strlit("pdf"); assert("pdf"@[0] != "eml"@[0]);
    reveal_strlit("zip"); assert("zip"@[0] != "eml"@[0]);
    reveal_strlit("gz"); assert("gz"@.len() != "eml"@.len());
    reveal_strlit("gzip"); assert("gzip"@.len() != "eml"@.len());
    reveal_strlit("tar"); assert("tar"@[0] != "eml"@[0]);
    reveal_strlit("7z"); assert("7z"@.len() != "eml"@.len());
    reveal_strlit("rar"); assert("rar"@[0] != "eml"@[0]);
    reveal_strlit("js"); assert("js"@.len() != "eml"@.len());
    reveal_strlit("mjs"); assert("mjs"@[0] != "eml"@[0]);
    reveal_strlit("wasm"); assert("wasm"@.len() != "eml"@.len());
    reveal_strlit("xhtml"); assert("xhtml"@.len() != "eml"@.len());
}

/// The table's entries for data, archive and script formats: each of these extensions gets this MIME type.
pub proof fn law_application_entries()
    ensures
        mime_type_of("json"@) == Some("application/json"@),
        mime_type_of("pdf"@) == Some("application/pdf"@),
        mime_type_of("zip"@) == Some("application/zip"@),
        mime_type_of("gz"@) == Some("application/gzip"@),
        mime_type_of("gzip"@) == Some("application/gzip"@),
        mime_type_of("tar"@) == Some("application/x-tar"@),
        mime_type_of("7z"@) == Some("application/x-7z-compressed"@),
        mime_type_of("rar"@) == Some("application/vnd.rar"@),
        mime_type_of("js"@) == Some("application/javascript"@),
        mime_type_of("mjs"@) == Some("application/javascript"@),
        mime_type_of("wasm"@) == Some("application/wasm"@),
        mime_type_of("xhtml"@) == Some("application/xhtml+xml"@),
        mime_type_of("eml"@) == Some("message/rfc822"@),
{
    lemma_entry_json();
    lemma_entry_pdf();
    lemma_entry_zip();
    lemma_entry_gz();
    lemma_entry_gzip();
    lemma_entry_tar();
    lemma_entry_7z();
    lemma_entry_rar();
    lemma_entry_js();
    lemma_entry_mjs();
    lemma_entry_wasm();
    lemma_entry_xhtml();
    lemma_entry_eml();
}

proof fn lemma_entry_docx()
    ensures
        mime_type_of("docx"@) == Some("application/vnd.openxmlformats-officedocument.wordprocessingml.document"@),
{
    reveal_strlit("docx");
    reveal_strlit("txt"); assert("txt"@.len() != "docx"@.len());
    reveal_strlit("text"); assert("text"@[0] != "docx"@[0]);
    reveal_strlit("log"); assert("log"@.len() != "docx"@.len());
    reveal_strlit("html"); assert("html"@[0] != "docx"@[0]);
    reveal_strlit("htm"); assert("htm"@.len() != "docx"@.len());
    reveal_strlit("css"); assert("css"@.len() != "docx"@.len());
    reveal_strlit("csv"); assert("csv"@.len() != "docx"@.len());
    reveal_strlit("xml"); assert("xml"@.len() != "docx"@.len());
    reveal_strlit("md"); assert("md"@.len() != "docx"@.len());
    reveal_strlit("markdown"); assert("markdown"@.len() != "docx"@.len());
    reveal_strlit("yaml"); assert("yaml"@[0] != "docx"@[0]);
    reveal_strlit("yml"); assert("yml"@.len() != "docx"@.len());
    reveal_strlit("ics"); assert("ics"@.len() != "docx"@.len());
    reveal_strlit("rtf"); assert("rtf"@.len() != "docx"@.len());
    reveal_strlit("json"); assert("json"@[0] != "docx"@[0]);
    reveal_strlit("pdf"); assert("pdf"@.len() != "docx"@.len());
    reveal_strlit("zip"); assert("zip"@.len() != "docx"@.len());
    reveal_strlit("gz"); assert("gz"@.len() != "docx"@.len());
    reveal_strlit("gzip"); assert("gzip"@[0] != "docx"@[0]);
    reveal_strlit("tar"); assert("tar"@.len() != "docx"@.len());
    reveal_strlit("7z"); assert("7z"@.len() != "docx"@.len());
    reveal_strlit("rar"); assert("rar"@.len() != "docx"@.len());
    reveal_strlit("js"); assert("js"@.len() != "docx"@.len());
    reveal_strlit("mjs"); assert("mjs"@.len() != "docx"@.len());
    reveal_strlit("wasm"); assert("wasm"@[0] != "docx"@[0]);
    reveal_strlit("xhtml"); assert("xhtml"@.len() != "docx"@.len());
    reveal_strlit("eml"); assert("eml"@.len() != "docx"@.len());
}

proof fn lemma_entry_xlsx()
    ensures
        mime_type_of("xlsx"@) == Some("application/vnd.openxmlformats-officedocument.spreadsheetml.sheet"@),
{
    reveal_strlit("xlsx");
    reveal_strlit("txt"); assert("txt"@.len() != "xlsx"@.len());
    reveal_strlit("text"); assert("text"@[0] != "xlsx"@[0]);
    reveal_strlit("log"); assert("log"@.len() != "xlsx"@.len());
    reveal_strlit("html"); assert("html"@[0] != "xlsx"@[0]);
    reveal_strlit("htm"); assert("htm"@.len() != "xlsx"@.len());
    reveal_strlit("css"); assert("css"@.len() != "xlsx"@.len());
    reveal_strlit("csv"); assert("csv"@.len() != "xlsx"@.len());
    reveal_strlit("xml"); assert("xml"@.len() != "xlsx"@.len());
    reveal_strlit("md"); assert("md"@.len() != "xlsx"@.len());
    reveal_strlit("markdown"); assert("markdown"@.len() != "xlsx"@.len());
    reveal_strlit("yaml"); assert("yaml"@[0] != "xlsx"@[0]);
    reveal_strlit("yml"); assert("yml"@.len() != "xlsx"@.len());
    reveal_strlit("ics"); assert("ics"@.len() != "xlsx"@.len());
    reveal_strlit("rtf"); assert("rtf"@.len() != "xlsx"@.len());
    reveal_strlit("json"); assert("json"@[0] != "xlsx"@[0]);
    reveal_strlit("pdf"); assert("pdf"@.len() != "xlsx"@.len());
    reveal_strlit("zip"); assert("zip"@.len() != "xlsx"@.len());
    reveal_strlit("gz"); assert("gz"@.len() != "xlsx"@.len());
    reveal_strlit("gzip"); assert("gzip"@[0] != "xlsx"@[0]);
    reveal_strlit("tar"); assert("tar"@.len() != "xlsx"@.len());
    reveal_strlit("7z"); assert("7z"@.len() != "xlsx"@.len());
    reveal_strlit("rar"); assert("rar"@.len() != "xlsx"@.len());
    reveal_strlit("js"); assert("js"@.len() != "xlsx"@.len());
    reveal_strlit("mjs"); assert("mjs"@.len() != "xlsx"@.len());
    reveal_strlit("wasm"); assert("wasm"@[0] != "xlsx"@[0]);
    reveal_strlit("xhtml"); assert("xhtml"@.len() != "xlsx"@.len());
    reveal_strlit("eml"); assert("eml"@.len() != "xlsx"@.len());
    reveal_strlit("docx"); assert("docx"@[0] != "xlsx"@[0]);
}

proof fn lemma_entry_pptx()
    ensures
        mime_type_of("pptx"@) == Some("application/vnd.openxmlformats-officedocument.presentationml.presentation"@),
{
    reveal_strlit("pptx");
    reveal_strlit("txt"); assert("txt"@.len() != "pptx"@.len());
    reveal_strlit("text"); assert("text"@[0] != "pptx"@[0]);
    reveal_strlit("log"); assert("log"@.len() != "pptx"@.len());
    reveal_strlit("html"); assert("html"@[0] != "pptx"@[0]);
    reveal_strlit("htm"); assert("htm"@.len() != "pptx"@.len());
    reveal_strlit("css"); assert("css"@.len() != "pptx"@.len());
    reveal_strlit("csv"); assert("csv"@.len() != "pptx"@.len());
    reveal_strlit("xml"); assert("xml"@.len() != "pptx"@.len());
    reveal_strlit("md"); assert("md"@.len() != "pptx"@.len());
    reveal_strlit("markdown"); assert("markdown"@.len() != "pptx"@.len());
    reveal_strlit("yaml"); assert("yaml"@[0] != "pptx"@[0]);
    reveal_strlit("yml"); assert("yml"@.len() != "pptx"@.len());
    reveal_strlit("ics"); assert("ics"@.len() != "pptx"@.len());
    reveal_strlit("rtf"); assert("rtf"@.len() != "pptx"@.len());
    reveal_strlit("json"); assert("json"@[0] != "pptx"@[0]);
    reveal_strlit("pdf"); assert("pdf"@.len() != "pptx"@.len());
    reveal_strlit("zip"); assert("zip"@.len() != "pptx"@.len());
    reveal_strlit("gz"); assert("gz"@.len() != "pptx"@.len());
    reveal_strlit("gzip"); assert("gzip"@[0] != "pptx"@[0]);
    reveal_strlit("tar"); assert("tar"@.len() != "pptx"@.len());
    reveal_strlit("7z"); assert("7z"@.len() != "pptx"@.len());
    reveal_strlit("rar"); assert("rar"@.len() != "pptx"@.len());
    reveal_strlit("js"); assert("js"@.len() != "pptx"@.len());
    reveal_strlit("mjs"); assert("mjs"@.len() != "pptx"@.len());
    reveal_strlit("wasm"); assert("wasm"@[0] != "pptx"@[0]);
    reveal_strlit("xhtml"); assert("xhtml"@.len() != "pptx"@.len());
    reveal_strlit("eml"); assert("eml"@.len() != "pptx"@.len());
    reveal_strlit("docx"); assert("docx"@[0] != "pptx"@[0]);
    reveal_strlit("xlsx"); assert("xlsx"@[0] != "pptx"@[0]);
}

proof fn lemma_entry_doc()
    ensures
        mime_type_of("doc"@) == Some("application/msword"@),
{
    reveal_strlit("doc");
    reveal_strlit("txt"); assert("txt"@[0] != "doc"@[0]);
    reveal_strlit("text"); assert("text"@.len() != "doc"@.len());
    reveal_strlit("log"); assert("log"@[0] != "doc"@[0]);
    reveal_strlit("html"); assert("html"@.len() != "doc"@.len());
    reveal_strlit("htm"); assert("htm"@[0] != "doc"@[0]);
    reveal_strlit("css"); assert("css"@[0] != "doc"@[0]);
    reveal_strlit("csv"); assert("csv"@[0] != "doc"@[0]);
    reveal_strlit("xml"); assert("xml"@[0] != "doc"@[0]);
    reveal_strlit("md"); assert("md"@.len() != "doc"@.len());
    reveal_strlit("markdown"); assert("markdown"@.len() != "doc"@.len());
    reveal_strlit("yaml"); assert("yaml"@.len() != "doc"@.len());
    reveal_strlit("yml"); assert("yml"@[0] != "doc"@[0]);
    reveal_strlit("ics"); assert("ics"@[0] != "doc"@[0]);
    reveal_strlit("rtf"); assert("rtf"@[0] != "doc"@[0]);
    reveal_strlit("json"); assert("json"@.len() != "doc"@.len());
    reveal_strlit("pdf"); assert("pdf"@[0] != "doc"@[0]);
    reveal_strlit("zip"); assert("zip"@[0] != "doc"@[0]);
    reveal_strlit("gz"); assert("gz"@.len() != "doc"@.len());
    reveal_strlit("gzip"); assert("gzip"@.len() != "doc"@.len());
    reveal_strlit("tar"); assert("tar"@[0] != "doc"@[0]);
    reveal_strlit("7z"); assert("7z"@.len() != "doc"@.len());
    reveal_strlit("rar"); assert("rar"@[0] != "doc"@[0]);
    reveal_strlit("js"); assert("js"@.len() != "doc"@.len());
    reveal_strlit("mjs"); assert("mjs"@[0] != "doc"@[0]);
    reveal_strlit("wasm"); assert("wasm"@.len() != "doc"@.len());
    reveal_strlit("xhtml"); assert("xhtml"@.len() != "doc"@.len());
    reveal_strlit("eml"); assert("eml"@[0] != "doc"@[0]);
    reveal_strlit("docx"); assert("docx"@.len() != "doc"@.len());
    reveal_strlit("xlsx"); assert("xlsx"@.len() != "doc"@.len());
    reveal_strlit("pptx"); assert("pptx"@.len() != "doc"@.len());
}

proof fn lemma_entry_xls()
    ensures
        mime_type_of("xls"@) == Some("application/vnd.ms-excel"@),
{
    reveal_strlit("xls");
    reveal_strlit("txt"); assert("txt"@[0] != "xls"@[0]);
    reveal_strlit("text"); assert("text"@.len() != "xls"@.len());
    reveal_strlit("log"); assert("log"@[0] != "xls"@[0]);
    reveal_strlit("html"); assert("html"@.len() != "xls"@.len());
    reveal_strlit("htm"); assert("htm"@[0] != "xls"@[0]);
    reveal_strlit("css"); assert("css"@[0] != "xls"@[0]);
    reveal_strlit("csv"); assert("csv"@[0] != "xls"@[0]);
    reveal_strlit("xml"); assert("xml"@[1] != "xls"@[1]);
    reveal_strlit("md"); assert("md"@.len() != "xls"@.len());
    reveal_strlit("markdown"); assert("markdown"@.len() != "xls"@.len());
    reveal_strlit("yaml"); assert("yaml"@.len() != "xls"@.len());
    reveal_strlit("yml"); assert("yml"@[0] != "xls"@[0]);
    reveal_strlit("ics"); assert("ics"@[0] != "xls"@[0]);
    reveal_strlit("rtf"); assert("rtf"@[0] != "xls"@[0]);
    reveal_strlit("json"); assert("json"@.len() != "xls"@.len());
    reveal_strlit("pdf"); assert("pdf"@[0] != "xls"@[0]);
    reveal_strlit("zip"); assert("zip"@[0] != "xls"@[0]);
    reveal_strlit("gz"); assert("gz"@.len() != "xls"@.len());
    reveal_strlit("gzip"); assert("gzip"@.len() != "xls"@.len());
    reveal_strlit("tar"); assert("tar"@[0] != "xls"@[0]);
    reveal_strlit("7z"); assert("7z"@.len() != "xls"@.len());
    reveal_strlit("rar"); assert("rar"@[0] != "xls"@[0]);
    reveal_strlit("js"); assert("js"@.len() != "xls"@.len());
    reveal_strlit("mjs"); assert("mjs"@[0] != "xls"@[0]);
    reveal_strlit("wasm"); assert("wasm"@.len() != "xls"@.len());
    reveal_strlit("xhtml"); assert("xhtml"@.len() != "xls"@.len());
    reveal_strlit("eml"); assert("eml"@[0] != "xls"@[0]);
    reveal_strlit("docx"); assert("docx"@.len() != "xls"@.len());
    reveal_strlit("xlsx"); assert("xlsx"@.len() != "xls"@.len());
    reveal_strlit("pptx"); assert("pptx"@.len() != "xls"@.len());
    reveal_strlit("doc"); assert("doc"@[0] != "xls"@[0]);
}

proof fn lemma_entry_ppt()
    ensures
        mime_type_of("ppt"@) == Some("application/vnd.ms-powerpoint"@),
{
    reveal_strlit("ppt");
    reveal_strlit("txt"); assert("txt"@[0] != "ppt"@[0]);
    reveal_strlit("text"); assert("text"@.len() != "ppt"@.len());
    reveal_strlit("log"); assert("log"@[0] != "ppt"@[0]);
    reveal_strlit("html"); assert("html"@.len() != "ppt"@.len());
    reveal_strlit("htm"); assert("htm"@[0] != "ppt"@[0]);
    reveal_strlit("css"); assert("css"@[0] != "ppt"@[0]);
    reveal_strlit("csv"); assert("csv"@[0] != "ppt"@[0]);
    reveal_strlit("xml"); assert("xml"@[0] != "ppt"@[0]);
    reveal_strlit("md"); assert("md"@.len() != "ppt"@.len());
    reveal_strlit("markdown"); assert("markdown"@.len() != "ppt"@.len());
    reveal_strlit("yaml"); assert("yaml"@.len() != "ppt"@.len());
    reveal_strlit("yml"); assert("yml"@[0] != "ppt"@[0]);
    reveal_strlit("ics"); assert("ics"@[0] != "ppt"@[0]);
    reveal_strlit("rtf"); assert("rtf"@[0] != "ppt"@[0]);
    reveal_strlit("json"); assert("json"@.len() != "ppt"@.len());
    reveal_strlit("pdf"); assert("pdf"@[1] != "ppt"@[1]);
    reveal_strlit("zip"); assert("zip"@[0] != "ppt"@[0]);
    reveal_strlit("gz"); assert("gz"@.len() != "ppt"@.len());
    reveal_strlit("gzip"); assert("gzip"@.len() != "ppt"@.len());
    reveal_strlit("tar"); assert("tar"@[0] != "ppt"@[0]);
    reveal_strlit("7z"); assert("7z"@.len() != "ppt"@.len());
    reveal_strlit("rar"); assert("rar"@[0] != "ppt"@[0]);
    reveal_strlit("js"); assert("js"@.len() != "ppt"@.len());
    reveal_strlit("mjs"); assert("mjs"@[0] != "ppt"@[0]);
    reveal_strlit("wasm"); assert("wasm"@.len() != "ppt"@.len());
    reveal_strlit("xhtml"); assert("xhtml"@.len() != "ppt"@.len());
    reveal_strlit("eml"); assert("eml"@[0] != "ppt"@[0]);
    reveal_strlit("docx"); assert("docx"@.len() != "ppt"@.len());
    reveal_strlit("xlsx"); assert("xlsx"@.len() != "ppt"@.len());
    reveal_strlit("pptx"); assert("pptx"@.len() != "ppt"@.len());
    reveal_strlit("doc"); assert("doc"@[0] != "ppt"@[0]);
    reveal_strlit("xls"); assert("xls"@[0] != "ppt"@[0]);
}

/// The table's entries for microsoft Office documents, modern and legacy: each of these extensions gets this MIME type.
pub proof fn law_office_entries()
    ensures
        mime_type_of("docx"@) == Some("application/vnd.openxmlformats-officedocument.wordprocessingml.document"@),
        mime_type_of("xlsx"@) == Some("application/vnd.openxmlformats-officedocument.spreadsheetml.sheet"@),
        mime_type_of("pptx"@) == Some("application/vnd.openxmlformats-officedocument.presentationml.presentation"@),
        mime_type_of("doc"@) == Some("application/msword"@),
        mime_type_of("xls"@) == Some("application/vnd.ms-excel"@),
        mime_type_of("ppt"@) == Some("application/vnd.ms-powerpoint"@),
{
    lemma_entry_docx();
    lemma_entry_xlsx();
    lemma_entry_pptx();
    lemma_entry_doc();
    lemma_entry_xls();
    lemma_entry_ppt();
}

proof fn lemma_entry_png()
    ensures
        mime_type_of("png"@) == Some("image/png"@),
{
    reveal_strlit("png");
    reveal_strlit("txt"); assert("txt"@[0] != "png"@[0]);
    reveal_strlit("text"); assert("text"@.len() != "png"@.len());
    reveal_strlit("log"); assert("log"@[0] != "png"@[0]);
    reveal_strlit("html"); assert("html"@.len() != "png"@.len());
    reveal_strlit("htm"); assert("htm"@[0] != "png"@[0]);
    reveal_strlit("css"); assert("css"@[0] != "png"@[0]);
    reveal_strlit("csv"); assert("csv"@[0] != "png"@[0]);
    reveal_strlit("xml"); assert("xml"@[0] != "png"@[0]);
    reveal_strlit("md"); assert("md"@.len() != "png"@.len());
    reveal_strlit("markdown"); assert("markdown"@.len() != "png"@.len());
    reveal_strlit("yaml"); assert("yaml"@.len() != "png"@.len());
    reveal_strlit("yml"); assert("yml"@[0] != "png"@[0]);
    reveal_strlit("ics"); assert("ics"@[0] != "png"@[0]);
    reveal_strlit("rtf"); assert("rtf"@[0] != "png"@[0]);
    reveal_strlit("json"); assert("json"@.len() != "png"@.len());
    reveal_strlit("pdf"); assert("pdf"@[1] != "png"@[1]);
    reveal_strlit("zip"); assert("zip"@[0] != "png"@[0]);
    reveal_strlit("gz"); assert("gz"@.len() != "png"@.len());
    reveal_strlit("gzip"); assert("gzip"@.len() != "png"@.len());
    reveal_strlit("tar"); assert("tar"@[0] != "png"@[0]);
    reveal_strlit("7z"); assert("7z"@.len() != "png"@.len());
    reveal_strlit("rar"); assert("rar"@[0] != "png"@[0]);
    reveal_strlit("js"); assert("js"@.len() != "png"@.len());
    reveal_strlit("mjs"); assert("mjs"@[0] != "png"@[0]);
    reveal_strlit("wasm"); assert("wasm"@.len() != "png"@.len());
    reveal_strlit("xhtml"); assert("xhtml"@.len() != "png"@.len());
    reveal_strlit("eml"); assert("eml"@[0] != "png"@[0]);
    reveal_strlit("docx"); assert("docx"@.len() != "png"@.len());
    reveal_strlit("xlsx"); assert("xlsx"@.len() != "png"@.len());
    reveal_strlit("pptx"); assert("pptx"@.len() != "png"@.len());
    reveal_strlit("doc"); assert("doc"@[0] != "png"@[0]);
    reveal_strlit("xls"); assert("xls"@[0] != "png"@[0]);
    reveal_strlit("ppt"); assert("ppt"@[1] != "png"@[1]);
}

proof fn lemma_entry_jpg()
    ensures
        mime_type_of("jpg"@) == Some("image/jpeg"@),
{
    reveal_strlit("jpg");
    reveal_strlit("txt"); assert("txt"@[0] != "jpg"@[0]);
    reveal_strlit("text"); assert("text"@.len() != "jpg"@.len());
    reveal_strlit("log"); assert("log"@[0] != "jpg"@[0]);
    reveal_strlit("html"); assert("html"@.len() != "jpg"@.len());
    reveal_strlit("htm"); assert("htm"@[0] != "jpg"@[0]);
    reveal_strlit("css"); assert("css"@[0] != "jpg"@[0]);
    reveal_strlit("csv"); assert("csv"@[0] != "jpg"@[0]);
    reveal_strlit("xml"); assert("xml"@[0] != "jpg"@[0]);
    reveal_strlit("md"); assert("md"@.len() != "jpg"@.len());
    reveal_strlit("markdown"); assert("markdown"@.len() != "jpg"@.len());
    reveal_strlit("yaml"); assert("yaml"@.len() != "jpg"@.len());
    reveal_strlit("yml"); assert("yml"@[0] != "jpg"@[0]);
    reveal_strlit("ics"); assert("ics"@[0] != "jpg"@[0]);
    reveal_strlit("rtf"); assert("rtf"@[0] != "jpg"@[0]);
    reveal_strlit("json"); assert("json"@.len() != "jpg"@.len());
    reveal_strlit("pdf"); assert("pdf"@[0] != "jpg"@[0]);
    reveal_strlit("zip"); assert("zip"@[0] != "jpg"@[0]);
    reveal_strlit("gz"); assert("gz"@.len() != "jpg"@.len());
    reveal_strlit("gzip"); assert("gzip"@.len() != "jpg"@.len());
    reveal_strlit("tar"); assert("tar"@[0] != "jpg"@[0]);
    reveal_strlit("7z"); assert("7z"@.len() != "jpg"@.len());
    reveal_strlit("rar"); assert("rar"@[0] != "jpg"@[0]);
    reveal_strlit("js"); assert("js"@.len() != "jpg"@.len());
    reveal_strlit("mjs"); assert("mjs"@[0] != "jpg"@[0]);
    reveal_strlit("wasm"); assert("wasm"@.len() != "jpg"@.len());
    reveal_strlit("xhtml"); assert("xhtml"@.len() != "jpg"@.len());
    reveal_strlit("eml"); assert("eml"@[0] != "jpg"@[0]);
    reveal_strlit("docx"); assert("docx"@.len() != "jpg"@.len());
    reveal_strlit("xlsx"); assert("xlsx"@.len() != "jpg"@.len());
    reveal_strlit("pptx"); assert("pptx"@.len() != "jpg"@.len());
    reveal_strlit("doc"); assert("doc"@[0] != "jpg"@[0]);
    reveal_strlit("xls"); assert("xls"@[0] != "jpg"@[0]);
    reveal_strlit("ppt"); assert("ppt"@[0] != "jpg"@[0]);
    reveal_strlit("png"); assert("png"@[0] != "jpg"@[0]);
}

proof fn lemma_entry_jpeg()
    ensures
        mime_type_of("jpeg"@) == Some("image/jpeg"@),
{
    reveal_strlit("jpeg");
    reveal_strlit("txt"); assert("txt"@.len() != "jpeg"@.len());
    reveal_strlit("text"); assert("text"@[0] != "jpeg"@[0]);
    reveal_strlit("log"); assert("log"@.len() != "jpeg"@.len());
    reveal_strlit("html"); assert("html"@[0] != "jpeg"@[0]);
    reveal_strlit("htm"); assert("htm"@.len() != "jpeg"@.len());
    reveal_strlit("css"); assert("css"@.len() != "jpeg"@.len());
    reveal_strlit("csv"); assert("csv"@.len() != "jpeg"@.len());
    reveal_strlit("xml"); assert("xml"@.len() != "jpeg"@.len());
    reveal_strlit("md"); assert("md"@.len() != "jpeg"@.len());
    reveal_strlit("markdown"); assert("markdown"@.len() != "jpeg"@.len());
    reveal_strlit("yaml"); assert("yaml"@[0] != "jpeg"@[0]);
    reveal_strlit("yml"); assert("yml"@.len() != "jpeg"@.len());
    reveal_strlit("ics"); assert("ics"@.len() != "jpeg"@.len());
    reveal_strlit("rtf"); assert("rtf"@.len() != "jpeg"@.len());
    reveal_strlit("json"); assert("json"@[1] != "jpeg"@[1]);
    reveal_strlit("pdf"); assert("pdf"@.len() != "jpeg"@.len());
    reveal_strlit("zip"); assert("zip"@.len() != "jpeg"@.len());
    reveal_strlit("gz"); assert("gz"@.len() != "jpeg"@.len());
    reveal_strlit("gzip"); assert("gzip"@[0] != "jpeg"@[0]);
    reveal_strlit("tar"); assert("tar"@.len() != "jpeg"@.len());
    reveal_strlit("7z"); assert("7z"@.len() != "jpeg"@.len());
    reveal_strlit("rar"); assert("rar"@.len() != "jpeg"@.len());
    reveal_strlit("js"); assert("js"@.len() != "jpeg"@.len());
    reveal_strlit("mjs"); assert("mjs"@.len() != "jpeg"@.len());
    reveal_strlit("wasm"); assert("wasm"@[0] != "jpeg"@[0]);
    reveal_strlit("xhtml"); assert("xhtml"@.len() != "jpeg"@.len());
    reveal_strlit("eml"); assert("eml"@.len() != "jpeg"@.len());
    reveal_strlit("docx"); assert("docx"@[0] != "jpeg"@[0]);
    reveal_strlit("xlsx"); assert("xlsx"@[0] != "jpeg"@[0]);
    reveal_strlit("pptx"); assert("pptx"@[0] != "jpeg"@[0]);
    reveal_strlit("doc"); assert("doc"@.len() != "jpeg"@.len());
    reveal_strlit("xls"); assert("xls"@.len() != "jpeg"@.len());
    reveal_strlit("ppt"); assert("ppt"@.len() != "jpeg"@.len());
    reveal_strlit("png"); assert("png"@.len() != "jpeg"@.len());
    reveal_strlit("jpg"); assert("jpg"@.len() != "jpeg"@.len());
}

proof fn lemma_entry_gif()
    ensures
        mime_type_of("gif"@) == Some("image/gif"@),
{
    reveal_strlit("gif");
    reveal_strlit("txt"); assert("txt"@[0] != "gif"@[0]);
    reveal_strlit("text"); assert("text"@.len() != "gif"@.len());
    reveal_strlit("log"); assert("log"@[0] != "gif"@[0]);
    reveal_strlit("html"); assert("html"@.len() != "gif"@.len());
    reveal_strlit("htm"); assert("htm"@[0] != "gif"@[0]);
    reveal_strlit("css"); assert("css"@[0] != "gif"@[0]);
    reveal_strlit("csv"); assert("csv"@[0] != "gif"@[0]);
    reveal_strlit("xml"); assert("xml"@[0] != "gif"@[0]);
    reveal_strlit("md"); assert("md"@.len() != "gif"@.len());
    reveal_strlit("markdown"); assert("markdown"@.len() != "gif"@.len());
    reveal_strlit("yaml"); assert("yaml"@.len() != "gif"@.len());
    reveal_strlit("yml"); assert("yml"@[0] != "gif"@[0]);
    reveal_strlit("ics"); assert("ics"@[0] != "gif"@[0]);
    reveal_strlit("rtf"); assert("rtf"@[0] != "gif"@[0]);
    reveal_strlit("json"); assert("json"@.len() != "gif"@.len());
    reveal_strlit("pdf"); assert("pdf"@[0] != "gif"@[0]);
    reveal_strlit("zip"); assert("zip"@[0] != "gif"@[0]);
    reveal_strlit("gz"); assert("gz"@.len() != "gif"@.len());
    reveal_strlit("gzip"); assert("gzip"@.len() != "gif"@.len());
    reveal_strlit("tar"); assert("tar"@[0] != "gif"@[0]);
    reveal_strlit("7z"); assert("7z"@.len() != "gif"@.len());
    reveal_strlit("rar"); assert("rar"@[0] != "gif"@[0]);
    reveal_strlit("js"); assert("js"@.len() != "gif"@.len());
    reveal_strlit("mjs"); assert("mjs"@[0] != "gif"@[0]);
    reveal_strlit("wasm"); assert("wasm"@.len() != "gif"@.len());
    reveal_strlit("xhtml"); assert("xhtml"@.len() != "gif"@.len());
    reveal_strlit("eml"); assert("eml"@[0] != "gif"@[0]);
    reveal_strlit("docx"); assert("docx"@.len() != "gif"@.len());
    reveal_strlit("xlsx"); assert("xlsx"@.len() != "gif"@.len());
    reveal_strlit("pptx"); assert("pptx"@.len() != "gif"@.len());
    reveal_strlit("doc"); assert("doc"@[0] != "gif"@[0]);
    reveal_strlit("xls"); assert("xls"@[0] != "gif"@[0]);
    reveal_strlit("ppt"); assert("ppt"@[0] != "gif"@[0]);
    reveal_strlit("png"); assert("png"@[0] != "gif"@[0]);
    reveal_strlit("jpg"); assert("jpg"@[0] != "gif"@[0]);
    reveal_strlit("jpeg"); assert("jpeg"@.len() != "gif"@.len());
}

proof fn lemma_entry_svg()
    ensures
        mime_type_of("svg"@) == Some("image/svg+xml"@),
{
    reveal_strlit("svg");
    reveal_strlit("txt"); assert("txt"@[0] != "svg"@[0]);
    reveal_strlit("text"); assert("text"@.len() != "svg"@.len());
    reveal_strlit("log"); assert("log"@[0] != "svg"@[0]);
    reveal_strlit("html"); assert("html"@.len() != "svg"@.len());
    reveal_strlit("htm"); assert("htm"@[0] != "svg"@[0]);
    reveal_strlit("css"); assert("css"@[0] != "svg"@[0]);
    reveal_strlit("csv"); assert("csv"@[0] != "svg"@[0]);
    reveal_strlit("xml"); assert("xml"@[0] != "svg"@[0]);
    reveal_strlit("md"); assert("md"@.len() != "svg"@.len());
    reveal_strlit("markdown"); assert("markdown"@.len() != "svg"@.len());
    reveal_strlit("yaml"); assert("yaml"@.len() != "svg"@.len());
    reveal_strlit("yml"); assert("yml"@[0] != "svg"@[0]);
    reveal_strlit("ics"); assert("ics"@[0] != "svg"@[0]);
    reveal_strlit("rtf"); assert("rtf"@[0] != "svg"@[0]);
    reveal_strlit("json"); assert("json"@.len() != "svg"@.len());
    reveal_strlit("pdf"); assert("pdf"@[0] != "svg"@[0]);
    reveal_strlit("zip"); assert("zip"@[0] != "svg"@[0]);
    reveal_strlit("gz"); assert("gz"@.len() != "svg"@.len());
    reveal_strlit("gzip"); assert("gzip"@.len() != "svg"@.len());
    reveal_strlit("tar"); assert("tar"@[0] != "svg"@[0]);
    reveal_strlit("7z"); assert("7z"@.len() != "svg"@.len());
    reveal_strlit("rar"); assert("rar"@[0] != "svg"@[0]);
    reveal_strlit("js"); assert("js"@.len() != "svg"@.len());
    reveal_strlit("mjs"); assert("mjs"@[0] != "svg"@[0]);
    reveal_strlit("wasm"); assert("wasm"@.len() != "svg"@.len());
    reveal_strlit("xhtml"); assert("xhtml"@.len() != "svg"@.len());
    reveal_strlit("eml"); assert("eml"@[0] != "svg"@[0]);
    reveal_strlit("docx"); assert("docx"@.len() != "svg"@.len());
    reveal_strlit("xlsx"); assert("xlsx"@.len() != "svg"@.len());
    reveal_strlit("pptx"); assert("pptx"@.len() != "svg"@.len());
    reveal_strlit("doc"); assert("doc"@[0] != "svg"@[0]);
    reveal_strlit("xls"); assert("xls"@[0] != "svg"@[0]);
    reveal_strlit("ppt"); assert("ppt"@[0] != "svg"@[0]);
    reveal_strlit("png"); assert("png"@[0] != "svg"@[0]);
    reveal_strlit("jpg"); assert("jpg"@[0] != "svg"@[0]);
    reveal_strlit("jpeg"); assert("jpeg"@.len() != "svg"@.len());
    reveal_strlit("gif"); assert("gif"@[0] != "svg"@[0]);
}

proof fn lemma_entry_webp()
    ensures
        mime_type_of("webp"@) == Some("image/webp"@),
{
    reveal_strlit("webp");
    reveal_strlit("txt"); assert("txt"@.len() != "webp"@.len());
    reveal_strlit("text"); assert("text"@[0] != "webp"@[0]);
    reveal_strlit("log"); assert("log"@.len() != "webp"@.len());
    reveal_strlit("html"); assert("html"@[0] != "webp"@[0]);
    reveal_strlit("htm"); assert("htm"@.len() != "webp"@.len());
    reveal_strlit("css"); assert("css"@.len() != "webp"@.len());
    reveal_strlit("csv"); assert("csv"@.len() != "webp"@.len());
    reveal_strlit("xml"); assert("xml"@.len() != "webp"@.len());
    reveal_strlit("md"); assert("md"@.len() != "webp"@.len());
    reveal_strlit("markdown"); assert("markdown"@.len() != "webp"@.len());
    reveal_strlit("yaml"); assert("yaml"@[0] != "webp"@[0]);
    reveal_strlit("yml"); assert("yml"@.len() != "webp"@.len());
    reveal_strlit("ics"); assert("ics"@.len() != "webp"@.len());
    reveal_strlit("rtf"); assert("rtf"@.len() != "webp"@.len());
    reveal_strlit("json"); assert("json"@[0] != "webp"@[0]);
    reveal_strlit("pdf"); assert("pdf"@.len() != "webp"@.len());
    reveal_strlit("zip"); assert("zip"@.len() != "webp"@.len());
    reveal_strlit("gz"); assert("gz"@.len() != "webp"@.len());
    reveal_strlit("gzip"); assert("gzip"@[0] != "webp"@[0]);
    reveal_strlit("tar"); assert("tar"@.len() != "webp"@.len());
    reveal_strlit("7z"); assert("7z"@.len() != "webp"@.len());
    reveal_strlit("rar"); assert("rar"@.len() != "webp"@.len());
    reveal_strlit("js"); assert("js"@.len() != "webp"@.len());
    reveal_strlit("mjs"); assert("mjs"@.len() != "webp"@.len());
    reveal_strlit("wasm"); assert("wasm"@[1] != "webp"@[1]);
    reveal_strlit("xhtml"); assert("xhtml"@.len() != "webp"@.len());
    reveal_strlit("eml"); assert("eml"@.len() != "webp"@.len());
    reveal_strlit("docx"); assert("docx"@[0] != "webp"@[0]);
    reveal_strlit("xlsx"); assert("xlsx"@[0] != "webp"@[0]);
    reveal_strlit("pptx"); assert("pptx"@[0] != "webp"@[0]);
    reveal_strlit("doc"); assert("doc"@.len() != "webp"@.len());
    reveal_strlit("xls"); assert("xls"@.len() != "webp"@.len());
    reveal_strlit("ppt"); assert("ppt"@.len() != "webp"@.len());
    reveal_strlit("png"); assert("png"@.len() != "webp"@.len());
    reveal_strlit("jpg"); assert("jpg"@.len() != "webp"@.len());
    reveal_strlit("jpeg"); assert("jpeg"@[0] != "webp"@[0]);
    reveal_strlit("gif"); assert("gif"@.len() != "webp"@.len());
    reveal_strlit("svg"); assert("svg"@.len() != "webp"@.len());
}

proof fn lemma_entry_ico()
    ensures
        mime_type_of("ico"@) == Some("image/x-icon"@),
{
    reveal_strlit("ico");
    reveal_strlit("txt"); assert("txt"@[0] != "ico"@[0]);
    reveal_strlit("text"); assert("text"@.len() != "ico"@.len());
    reveal_strlit("log"); assert("log"@[0] != "ico"@[0]);
    reveal_strlit("html"); assert("html"@.len() != "ico"@.len());
    reveal_strlit("htm"); assert("htm"@[0] != "ico"@[0]);
    reveal_strlit("css"); assert("css"@[0] != "ico"@[0]);
    reveal_strlit("csv"); assert("csv"@[0] != "ico"@[0]);
    reveal_strlit("xml"); assert("xml"@[0] != "ico"@[0]);
    reveal_strlit("md"); assert("md"@.len() != "ico"@.len());
    reveal_strlit("markdown"); assert("markdown"@.len() != "ico"@.len());
    reveal_strlit("yaml"); assert("yaml"@.len() != "ico"@.len());
    reveal_strlit("yml"); assert("yml"@[0] != "ico"@[0]);
    reveal_strlit("ics"); assert("ics"@[2] != "ico"@[2]);
    reveal_strlit("rtf"); assert("rtf"@[0] != "ico"@[0]);
    reveal_strlit("json"); assert("json"@.len() != "ico"@.len());
    reveal_strlit("pdf"); assert("pdf"@[0] != "ico"@[0]);
    reveal_strlit("zip"); assert("zip"@[0] != "ico"@[0]);
    reveal_strlit("gz"); assert("gz"@.len() != "ico"@.len());
    reveal_strlit("gzip"); assert("gzip"@.len() != "ico"@.len());
    reveal_strlit("tar"); assert("tar"@[0] != "ico"@[0]);
    reveal_strlit("7z"); assert("7z"@.len() != "ico"@.len());
    reveal_strlit("rar"); assert("rar"@[0] != "ico"@[0]);
    reveal_strlit("js"); assert("js"@.len() != "ico"@.len());
    reveal_strlit("mjs"); assert("mjs"@[0] != "ico"@[0]);
    reveal_strlit("wasm"); assert("wasm"@.len() != "ico"@.len());
    reveal_strlit("xhtml"); assert("xhtml"@.len() != "ico"@.len());
    reveal_strlit("eml"); assert("eml"@[0] != "ico"@[0]);
    reveal_strlit("docx"); assert("docx"@.len() != "ico"@.len());
    reveal_strlit("xlsx"); assert("xlsx"@.len() != "ico"@.len());
    reveal_strlit("pptx"); assert("pptx"@.len() != "ico"@.len());
    reveal_strlit("doc"); assert("doc"@[0] != "ico"@[0]);
    reveal_strlit("xls"); assert("xls"@[0] != "ico"@[0]);
    reveal_strlit("ppt"); assert("ppt"@[0] != "ico"@[0]);
    reveal_strlit("png"); assert("png"@[0] != "ico"@[0]);
    reveal_strlit("jpg"); assert("jpg"@[0] != "ico"@[0]);
    reveal_strlit("jpeg"); assert("jpeg"@.len() != "ico"@.len());
    reveal_strlit("gif"); assert("gif"@[0] != "ico"@[0]);
    reveal_strlit("svg"); assert("svg"@[0] != "ico"@[0]);
    reveal_strlit("webp"); assert("webp"@.len() != "ico"@.len());
}

proof fn lemma_entry_bmp()
    ensures
        mime_type_of("bmp"@) == Some("image/bmp"@),
{
    reveal_strlit("bmp");
    reveal_strlit("txt"); assert("txt"@[0] != "bmp"@[0]);
    reveal_strlit("text"); assert("text"@.len() != "bmp"@.len());
    reveal_strlit("log"); assert("log"@[0] != "bmp"@[0]);
    reveal_strlit("html"); assert("html"@.len() != "bmp"@.len());
    reveal_strlit("htm"); assert("htm"@[0] != "bmp"@[0]);
    reveal_strlit("css"); assert("css"@[0] != "bmp"@[0]);
    reveal_strlit("csv"); assert("csv"@[0] != "bmp"@[0]);
    reveal_strlit("xml"); assert("xml"@[0] != "bmp"@[0]);
    reveal_strlit("md"); assert("md"@.len() != "bmp"@.len());
    reveal_strlit("markdown"); assert("markdown"@.len() != "bmp"@.len());
    reveal_strlit("yaml"); assert("yaml"@.len() != "bmp"@.len());
    reveal_strlit("yml"); assert("yml"@[0] != "bmp"@[0]);
    reveal_strlit("ics"); assert("ics"@[0] != "bmp"@[0]);
    reveal_strlit("rtf"); assert("rtf"@[0] != "bmp"@[0]);
    reveal_strlit("json"); assert("json"@.len() != "bmp"@.len());
    reveal_strlit("pdf"); assert("pdf"@[0] != "bmp"@[0]);
    reveal_strlit("zip"); assert("zip"@[0] != "bmp"@[0]);
    reveal_strlit("gz"); assert("gz"@.len() != "bmp"@.len());
    reveal_strlit("gzip"); assert("gzip"@.len() != "bmp"@.len());
    reveal_strlit("tar"); assert("tar"@[0] != "bmp"@[0]);
    reveal_strlit("7z"); assert("7z"@.len() != "bmp"@.len());
    reveal_strlit("rar"); assert("rar"@[0] != "bmp"@[0]);
    reveal_strlit("js"); assert("js"@.len() != "bmp"@.len());
    reveal_strlit("mjs"); assert("mjs"@[0] != "bmp"@[0]);
    reveal_strlit("wasm"); assert("wasm"@.len() != "bmp"@.len());
    reveal_strlit("xhtml"); assert("xhtml"@.len() != "bmp"@.len());
    reveal_strlit("eml"); assert("eml"@[0] != "bmp"@[0]);
    reveal_strlit("docx"); assert("docx"@.len() != "bmp"@.len());
    reveal_strlit("xlsx"); assert("xlsx"@.len() != "bmp"@.len());
    reveal_strlit("pptx"); assert("pptx"@.len() != "bmp"@.len());
    reveal_strlit("doc"); assert("doc"@[0] != "bmp"@[0]);
    reveal_strlit("xls"); assert("xls"@[0] != "bmp"@[0]);
    reveal_strlit("ppt"); assert("ppt"@[0] != "bmp"@[0]);
    reveal_strlit("png"); assert("png"@[0] != "bmp"@[0]);
    reveal_strlit("jpg"); assert("jpg"@[0] != "bmp"@[0]);
    reveal_strlit("jpeg"); assert("jpeg"@.len() != "bmp"@.len());
    reveal_strlit("gif"); assert("gif"@[0] != "bmp"@[0]);
    reveal_strlit("svg"); assert("svg"@[0] != "bmp"@[0]);
    reveal_strlit("webp"); assert("webp"@.len() != "bmp"@.len());
    reveal_strlit("ico"); assert("ico"@[0] != "bmp"@[0]);
}

proof fn lemma_entry_tiff()
    ensures
        mime_type_of("tiff"@) == Some("image/tiff"@),
{
    reveal_strlit("tiff");
    reveal_strlit("txt"); assert("txt"@.len() != "tiff"@.len());
    reveal_strlit("text"); assert("text"@[1] != "tiff"@[1]);
    reveal_strlit("log"); assert("log"@.len() != "tiff"@.len());
    reveal_strlit("html"); assert("html"@[0] != "tiff"@[0]);
    reveal_strlit("htm"); assert("htm"@.len() != "tiff"@.len());
    reveal_strlit("css"); assert("css"@.len() != "tiff"@.len());
    reveal_strlit("csv"); assert("csv"@.len() != "tiff"@.len());
    reveal_strlit("xml"); assert("xml"@.len() != "tiff"@.len());
    reveal_strlit("md"); assert("md"@.len() != "tiff"@.len());
    reveal_strlit("markdown"); assert("markdown"@.len() != "tiff"@.len());
    reveal_strlit("yaml"); assert("yaml"@[0] != "tiff"@[0]);
    reveal_strlit("yml"); assert("yml"@.len() != "tiff"@.len());
    reveal_strlit("ics"); assert("ics"@.len() != "tiff"@.len());
    reveal_strlit("rtf"); assert("rtf"@.len() != "tiff"@.len());
    reveal_strlit("json"); assert("json"@[0] != "tiff"@[0]);
    reveal_strlit("pdf"); assert("pdf"@.len() != "tiff"@.len());
    reveal_strlit("zip"); assert("zip"@.len() != "tiff"@.len());
    reveal_strlit("gz"); assert("gz"@.len() != "tiff"@.len());
    reveal_strlit("gzip"); assert("gzip"@[0] != "tiff"@[0]);
    reveal_strlit("tar"); assert("tar"@.len() != "tiff"@.len());
    reveal_strlit("7z"); assert("7z"@.len() != "tiff"@.len());
    reveal_strlit("rar"); assert("rar"@.len() != "tiff"@.len());
    reveal_strlit("js"); assert("js"@.len() != "tiff"@.len());
    reveal_strlit("mjs"); assert("mjs"@.len() != "tiff"@.len());
    reveal_strlit("wasm"); assert("wasm"@[0] != "tiff"@[0]);
    reveal_strlit("xhtml"); assert("xhtml"@.len() != "tiff"@.len());
    reveal_strlit("eml"); assert("eml"@.len() != "tiff"@.len());
    reveal_strlit("docx"); assert("docx"@[0] != "tiff"@[0]);
    reveal_strlit("xlsx"); assert("xlsx"@[0] != "tiff"@[0]);
    reveal_strlit("pptx"); assert("pptx"@[0] != "tiff"@[0]);
    reveal_strlit("doc"); assert("doc"@.len() != "tiff"@.len());
    reveal_strlit("xls"); assert("xls"@.len() != "tiff"@.len());
    reveal_strlit("ppt"); assert("ppt"@.len() != "tiff"@.len());
    reveal_strlit("png"); assert("png"@.len() != "tiff"@.len());
    reveal_strlit("jpg"); assert("jpg"@.len() != "tiff"@.len());
    reveal_strlit("jpeg"); assert("jpeg"@[0] != "tiff"@[0]);
    reveal_strlit("gif"); assert("gif"@.len() != "tiff"@.len());
    reveal_strlit("svg"); assert("svg"@.len() != "tiff"@.len());
    reveal_strlit("webp"); assert("webp"@[0] != "tiff"@[0]);
    reveal_strlit("ico"); assert("ico"@.len() != "tiff"@.len());
    reveal_strlit("bmp"); assert("bmp"@.len() != "tiff"@.len());
}

proof fn lemma_entry_tif()
    ensures
        mime_type_of("tif"@) == Some("image/tiff"@),
{
    reveal_strlit("tif");
    reveal_strlit("txt"); assert("txt"@[1] != "tif"@[1]);
    reveal_strlit("text"); assert("text"@.len() != "tif"@.len());
    reveal_strlit("log"); assert("log"@[0] != "tif"@[0]);
    reveal_strlit("html"); assert("html"@.len() != "tif"@.len());
    reveal_strlit("htm"); assert("htm"@[0] != "tif"@[0]);
    reveal_strlit("css"); assert("css"@[0] != "tif"@[0]);
    reveal_strlit("csv"); assert("csv"@[0] != "tif"@[0]);
    reveal_strlit("xml"); assert("xml"@[0] != "tif"@[0]);
    reveal_strlit("md"); assert("md"@.len() != "tif"@.len());
    reveal_strlit("markdown"); assert("markdown"@.len() != "tif"@.len());
    reveal_strlit("yaml"); assert("yaml"@.len() != "tif"@.len());
    reveal_strlit("yml"); assert("yml"@[0] != "tif"@[0]);
    reveal_strlit("ics"); assert("ics"@[0] != "tif"@[0]);
    reveal_strlit("rtf"); assert("rtf"@[0] != "tif"@[0]);
    reveal_strlit("json"); assert("json"@.len() != "tif"@.len());
    reveal_strlit("pdf"); assert("pdf"@[0] != "tif"@[0]);
    reveal_strlit("zip"); assert("zip"@[0] != "tif"@[0]);
    reveal_strlit("gz"); assert("gz"@.len() != "tif"@.len());
    reveal_strlit("gzip"); assert("gzip"@.len() != "tif"@.len());
    reveal_strlit("tar"); assert("tar"@[1] != "tif"@[1]);
    reveal_strlit("7z"); assert("7z"@.len() != "tif"@.len());
    reveal_strlit("rar"); assert("rar"@[0] != "tif"@[0]);
    reveal_strlit("js"); assert("js"@.len() != "tif"@.len());
    reveal_strlit("mjs"); assert("mjs"@[0] != "tif"@[0]);
    reveal_strlit("wasm"); assert("wasm"@.len() != "tif"@.len());
    reveal_strlit("xhtml"); assert("xhtml"@.len() != "tif"@.len());
    reveal_strlit("eml"); assert("eml"@[0] != "tif"@[0]);
    reveal_strlit("docx"); assert("docx"@.len() != "tif"@.len());
    reveal_strlit("xlsx"); assert("xlsx"@.len() != "tif"@.len());
    reveal_strlit("pptx"); assert("pptx"@.len() != "tif"@.len());
    reveal_strlit("doc"); assert("doc"@[0] != "tif"@[0]);
    reveal_strlit("xls"); assert("xls"@[0] != "tif"@[0]);
    reveal_strlit("ppt"); assert("ppt"@[0] != "tif"@[0]);
    reveal_strlit("png"); assert("png"@[0] != "tif"@[0]);
    reveal_strlit("jpg"); assert("jpg"@[0] != "tif"@[0]);
    reveal_strlit("jpeg"); assert("jpeg"@.len() != "tif"@.len());
    reveal_strlit("gif"); assert("gif"@[0] != "tif"@[0]);
    reveal_strlit("svg"); assert("svg"@[0] != "tif"@[0]);
    reveal_strlit("webp"); assert("webp"@.len() != "tif"@.len());
    reveal_strlit("ico"); assert("ico"@[0] != "tif"@[0]);
    reveal_strlit("bmp"); assert("bmp"@[0] != "tif"@[0]);
    reveal_strlit("tiff"); assert("tiff"@.len() != "tif"@.len());
}

/// The table's entries for raster and vector images: each of these extensions gets this MIME type.
pub proof fn law_image_entries()
    ensures
        mime_type_of("png"@) == Some("image/png"@),
        mime_type_of("jpg"@) == Some("image/jpeg"@),
        mime_type_of("jpeg"@) == Some("image/jpeg"@),
        mime_type_of("gif"@) == Some("image/gif"@),
        mime_type_of("svg"@) == Some("image/svg+xml"@),
        mime_type_of("webp"@) == Some("image/webp"@),
        mime_type_of("ico"@) == Some("image/x-icon"@),
        mime_type_of("bmp"@) == Some("image/bmp"@),
        mime_type_of("tiff"@) == Some("image/tiff"@),
        mime_type_of("tif"@) == Some("image/tiff"@),
{
    lemma_entry_png();
    lemma_entry_jpg();
    lemma_entry_jpeg();
    lemma_entry_gif();
    lemma_entry_svg();
    lemma_entry_webp();
    lemma_entry_ico();
    lemma_entry_bmp();
    lemma_entry_tiff();
    lemma_entry_tif();
}

proof fn lemma_entry_mp3()
    ensures
        mime_type_of("mp3"@) == Some("audio/mpeg"@),
{
    reveal_strlit("mp3");
    reveal_strlit("txt"); assert("txt"@[0] != "mp3"@[0]);
    reveal_strlit("text"); assert("text"@.len() != "mp3"@.len());
    reveal_strlit("log"); assert("log"@[0] != "mp3"@[0]);
    reveal_strlit("html"); assert("html"@.len() != "mp3"@.len());
    reveal_strlit("htm"); assert("htm"@[0] != "mp3"@[0]);
    reveal_strlit("css"); assert("css"@[0] != "mp3"@[0]);
    reveal_strlit("csv"); assert("csv"@[0] != "mp3"@[0]);
    reveal_strlit("xml"); assert("xml"@[0] != "mp3"@[0]);
    reveal_strlit("md"); assert("md"@.len() != "mp3"@.len());
    reveal_strlit("markdown"); assert("markdown"@.len() != "mp3"@.len());
    reveal_strlit("yaml"); assert("yaml"@.len() != "mp3"@.len());
    reveal_strlit("yml"); assert("yml"@[0] != "mp3"@[0]);
    reveal_strlit("ics"); assert("ics"@[0] != "mp3"@[0]);
    reveal_strlit("rtf"); assert("rtf"@[0] != "mp3"@[0]);
    reveal_strlit("json"); assert("json"@.len() != "mp3"@.len());
    reveal_strlit("pdf"); assert("pdf"@[0] != "mp3"@[0]);
    reveal_strlit("zip"); assert("zip"@[0] != "mp3"@[0]);
    reveal_strlit("gz"); assert("gz"@.len() != "mp3"@.len());
    reveal_strlit("gzip"); assert("gzip"@.len() != "mp3"@.len());
    reveal_strlit("tar"); assert("tar"@[0] != "mp3"@[0]);
    reveal_strlit("7z"); assert("7z"@.len() != "mp3"@.len());
    reveal_strlit("rar"); assert("rar"@[0] != "mp3"@[0]);
    reveal_strlit("js"); assert("js"@.len() != "mp3"@.len());
    reveal_strlit("mjs"); assert("mjs"@[1] != "mp3"@[1]);
    reveal_strlit("wasm"); assert("wasm"@.len() != "mp3"@.len());
    reveal_strlit("xhtml"); assert("xhtml"@.len() != "mp3"@.len());
    reveal_strlit("eml"); assert("eml"@[0] != "mp3"@[0]);
    reveal_strlit("docx"); assert("docx"@.len() != "mp3"@.len());
    reveal_strlit("xlsx"); assert("xlsx"@.len() != "mp3"@.len());
    reveal_strlit("pptx"); assert("pptx"@.len() != "mp3"@.len());
    reveal_strlit("doc"); assert("doc"@[0] != "mp3"@[0]);
    reveal_strlit("xls"); assert("xls"@[0] != "mp3"@[0]);
    reveal_strlit("ppt"); assert("ppt"@[0] != "mp3"@[0]);
    reveal_strlit("png"); assert("png"@[0] != "mp3"@[0]);
    reveal_strlit("jpg"); assert("jpg"@[0] != "mp3"@[0]);
    reveal_strlit("jpeg"); assert("jpeg"@.len() != "mp3"@.len());
    reveal_strlit("gif"); assert("gif"@[0] != "mp3"@[0]);
    reveal_strlit("svg"); assert("svg"@[0] != "mp3"@[0]);
    reveal_strlit("webp"); assert("webp"@.len() != "mp3"@.len());
    reveal_strlit("ico"); assert("ico"@[0] != "mp3"@[0]);
    reveal_strlit("bmp"); assert("bmp"@[0] != "mp3"@[0]);
    reveal_strlit("tiff"); assert("tiff"@.len() != "mp3"@.len());
    reveal_strlit("tif"); assert("tif"@[0] != "mp3"@[0]);
}

proof fn lemma_entry_wav()
    ensures
        mime_type_of("wav"@) == Some("audio/wav"@),
{
    reveal_strlit("wav");
    reveal_strlit("txt"); assert("txt"@[0] != "wav"@[0]);
    reveal_strlit("text"); assert("text"@.len() != "wav"@.len());
    reveal_strlit("log"); assert("log"@[0] != "wav"@[0]);
    reveal_strlit("html"); assert("html"@.len() != "wav"@.len());
    reveal_strlit("htm"); assert("htm"@[0] != "wav"@[0]);
    reveal_strlit("css"); assert("css"@[0] != "wav"@[0]);
    reveal_strlit("csv"); assert("csv"@[0] != "wav"@[0]);
    reveal_strlit("xml"); assert("xml"@[0] != "wav"@[0]);
    reveal_strlit("md"); assert("md"@.len() != "wav"@.len());
    reveal_strlit("markdown"); assert("markdown"@.len() != "wav"@.len());
    reveal_strlit("yaml"); assert("yaml"@.len() != "wav"@.len());
    reveal_strlit("yml"); assert("yml"@[0] != "wav"@[0]);
    reveal_strlit("ics"); assert("ics"@[0] != "wav"@[0]);
    reveal_strlit("rtf"); assert("rtf"@[0] != "wav"@[0]);
    reveal_strlit("json"); assert("json"@.len() != "wav"@.len());
    reveal_strlit("pdf"); assert("pdf"@[0] != "wav"@[0]);
    reveal_strlit("zip"); assert("zip"@[0] != "wav"@[0]);
    reveal_strlit("gz"); assert("gz"@.len() != "wav"@.len());
    reveal_strlit("gzip"); assert("gzip"@.len() != "wav"@.len());
    reveal_strlit("tar"); assert("tar"@[0] != "wav"@[0]);
    reveal_strlit("7z"); assert("7z"@.len() != "wav"@.len());
    reveal_strlit("rar"); assert("rar"@[0] != "wav"@[0]);
    reveal_strlit("js"); assert("js"@.len() != "wav"@.len());
    reveal_strlit("mjs"); assert("mjs"@[0] != "wav"@[0]);
    reveal_strlit("wasm"); assert("wasm"@.len() != "wav"@.len());
    reveal_strlit("xhtml"); assert("xhtml"@.len() != "wav"@.len());
    reveal_strlit("eml"); assert("eml"@[0] != "wav"@[0]);
    reveal_strlit("docx"); assert("docx"@.len() != "wav"@.len());
    reveal_strlit("xlsx"); assert("xlsx"@.len() != "wav"@.len());
    reveal_strlit("pptx"); assert("pptx"@.len() != "wav"@.len());
    reveal_strlit("doc"); assert("doc"@[0] != "wav"@[0]);
    reveal_strlit("xls"); assert("xls"@[0] != "wav"@[0]);
    reveal_strlit("ppt"); assert("ppt"@[0] != "wav"@[0]);
    reveal_strlit("png"); assert("png"@[0] != "wav"@[0]);
    reveal_strlit("jpg"); assert("jpg"@[0] != "wav"@[0]);
    reveal_strlit("jpeg"); assert("jpeg"@.len() != "wav"@.len());
    reveal_strlit("gif"); assert("gif"@[0] != "wav"@[0]);
    reveal_strlit("svg"); assert("svg"@[0] != "wav"@[0]);
    reveal_strlit("webp"); assert("webp"@.len() != "wav"@.len());
    reveal_strlit("ico"); assert("ico"@[0] != "wav"@[0]);
    reveal_strlit("bmp"); assert("bmp"@[0] != "wav"@[0]);
    reveal_strlit("tiff"); assert("tiff"@.len() != "wav"@.len());
    reveal_strlit("tif"); assert("tif"@[0] != "wav"@[0]);
    reveal_strlit("mp3"); assert("mp3"@[0] != "wav"@[0]);
}

proof fn lemma_entry_ogg()
    ensures
        mime_type_of("ogg"@) == Some("audio/ogg"@),
{
    reveal_strlit("ogg");
    reveal_strlit("txt"); assert("txt"@[0] != "ogg"@[0]);
    reveal_strlit("text"); assert("text"@.len() != "ogg"@.len());
    reveal_strlit("log"); assert("log"@[0] != "ogg"@[0]);
    reveal_strlit("html"); assert("html"@.len() != "ogg"@.len());
    reveal_strlit("htm"); assert("htm"@[0] != "ogg"@[0]);
    reveal_strlit("css"); assert("css"@[0] != "ogg"@[0]);
    reveal_strlit("csv"); assert("csv"@[0] != "ogg"@[0]);
    reveal_strlit("xml"); assert("xml"@[0] != "ogg"@[0]);
    reveal_strlit("md"); assert("md"@.len() != "ogg"@.len());
    reveal_strlit("markdown"); assert("markdown"@.len() != "ogg"@.len());
    reveal_strlit("yaml"); assert("yaml"@.len() != "ogg"@.len());
    reveal_strlit("yml"); assert("yml"@[0] != "ogg"@[0]);
    reveal_strlit("ics"); assert("ics"@[0] != "ogg"@[0]);
    reveal_strlit("rtf"); assert("rtf"@[0] != "ogg"@[0]);
    reveal_strlit("json"); assert("json"@.len() != "ogg"@.len());
    reveal_strlit("pdf"); assert("pdf"@[0] != "ogg"@[0]);
    reveal_strlit("zip"); assert("zip"@[0] != "ogg"@[0]);
    reveal_strlit("gz"); assert("gz"@.len() != "ogg"@.len());
    reveal_strlit("gzip"); assert("gzip"@.len() != "ogg"@.len());
    reveal_strlit("tar"); assert("tar"@[0] != "ogg"@[0]);
    reveal_strlit("7z"); assert("7z"@.len() != "ogg"@.len());
    reveal_strlit("rar"); assert("rar"@[0] != "ogg"@[0]);
    reveal_strlit("js"); assert("js"@.len() != "ogg"@.len());
    reveal_strlit("mjs"); assert("mjs"@[0] != "ogg"@[0]);
    reveal_strlit("wasm"); assert("wasm"@.len() != "ogg"@.len());
    reveal_strlit("xhtml"); assert("xhtml"@.len() != "ogg"@.len());
    reveal_strlit("eml"); assert("eml"@[0] != "ogg"@[0]);
    reveal_strlit("docx"); assert("docx"@.len() != "ogg"@.len());
    reveal_strlit("xlsx"); assert("xlsx"@.len() != "ogg"@.len());
    reveal_strlit("pptx"); assert("pptx"@.len() != "ogg"@.len());
    reveal_strlit("doc"); assert("doc"@[0] != "ogg"@[0]);
    reveal_strlit("xls"); assert("xls"@[0] != "ogg"@[0]);
    reveal_strlit("ppt"); assert("ppt"@[0] != "ogg"@[0]);
    reveal_strlit("png"); assert("png"@[0] != "ogg"@[0]);
    reveal_strlit("jpg"); assert("jpg"@[0] != "ogg"@[0]);
    reveal_strlit("jpeg"); assert("jpeg"@.len() != "ogg"@.len());
    reveal_strlit("gif"); assert("gif"@[0] != "ogg"@[0]);
    reveal_strlit("svg"); assert("svg"@[0] != "ogg"@[0]);
    reveal_strlit("webp"); assert("webp"@.len() != "ogg"@.len());
    reveal_strlit("ico"); assert("ico"@[0] != "ogg"@[0]);
    reveal_strlit("bmp"); assert("bmp"@[0] != "ogg"@[0]);
    reveal_strlit("tiff"); assert("tiff"@.len() != "ogg"@.len());
    reveal_strlit("tif"); assert("tif"@[0] != "ogg"@[0]);
    reveal_strlit("mp3"); assert("mp3"@[0] != "ogg"@[0]);
    reveal_strlit("wav"); assert("wav"@[0] != "ogg"@[0]);
}

proof fn lemma_entry_flac()
    ensures
        mime_type_of("flac"@) == Some("audio/flac"@),
{
    reveal_strlit("flac");
    reveal_strlit("txt"); assert("txt"@.len() != "flac"@.len());
    reveal_strlit("text"); assert("text"@[0] != "flac"@[0]);
    reveal_strlit("log"); assert("log"@.len() != "flac"@.len());
    reveal_strlit("html"); assert("html"@[0] != "flac"@[0]);
    reveal_strlit("htm"); assert("htm"@.len() != "flac"@.len());
    reveal_strlit("css"); assert("css"@.len() != "flac"@.len());
    reveal_strlit("csv"); assert("csv"@.len() != "flac"@.len());
    reveal_strlit("xml"); assert("xml"@.len() != "flac"@.len());
    reveal_strlit("md"); assert("md"@.len() != "flac"@.len());
    reveal_strlit("markdown"); assert("markdown"@.len() != "flac"@.len());
    reveal_strlit("yaml"); assert("yaml"@[0] != "flac"@[0]);
    reveal_strlit("yml"); assert("yml"@.len() != "flac"@.len());
    reveal_strlit("ics"); assert("ics"@.len() != "flac"@.len());
    reveal_strlit("rtf"); assert("rtf"@.len() != "flac"@.len());
    reveal_strlit("json"); assert("json"@[0] != "flac"@[0]);
    reveal_strlit("pdf"); assert("pdf"@.len() != "flac"@.len());
    reveal_strlit("zip"); assert("zip"@.len() != "flac"@.len());
    reveal_strlit("gz"); assert("gz"@.len() != "flac"@.len());
    reveal_strlit("gzip"); assert("gzip"@[0] != "flac"@[0]);
    reveal_strlit("tar"); assert("tar"@.len() != "flac"@.len());
    reveal_strlit("7z"); assert("7z"@.len() != "flac"@.len());
    reveal_strlit("rar"); assert("rar"@.len() != "flac"@.len());
    reveal_strlit("js"); assert("js"@.len() != "flac"@.len());
    reveal_strlit("mjs"); assert("mjs"@.len() != "flac"@.len());
    reveal_strlit("wasm"); assert("wasm"@[0] != "flac"@[0]);
    reveal_strlit("xhtml"); assert("xhtml"@.len() != "flac"@.len());
    reveal_strlit("eml"); assert("eml"@.len() != "flac"@.len());
    reveal_strlit("docx"); assert("docx"@[0] != "flac"@[0]);
    reveal_strlit("xlsx"); assert("xlsx"@[0] != "flac"@[0]);
    reveal_strlit("pptx"); assert("pptx"@[0] != "flac"@[0]);
    reveal_strlit("doc"); assert("doc"@.len() != "flac"@.len());
    reveal_strlit("xls"); assert("xls"@.len() != "flac"@.len());
    reveal_strlit("ppt"); assert("ppt"@.len() != "flac"@.len());
    reveal_strlit("png"); assert("png"@.len() != "flac"@.len());
    reveal_strlit("jpg"); assert("jpg"@.len() != "flac"@.len());
    reveal_strlit("jpeg"); assert("jpeg"@[0] != "flac"@[0]);
    reveal_strlit("gif"); assert("gif"@.len() != "flac"@.len());
    reveal_strlit("svg"); assert("svg"@.len() != "flac"@.len());
    reveal_strlit("webp"); assert("webp"@[0] != "flac"@[0]);
    reveal_strlit("ico"); assert("ico"@.len() != "flac"@.len());
    reveal_strlit("bmp"); assert("bmp"@.len() != "flac"@.len());
    reveal_strlit("tiff"); assert("tiff"@[0] != "flac"@[0]);
    reveal_strlit("tif"); assert("tif"@.len() != "flac"@.len());
    reveal_strlit("mp3"); assert("mp3"@.len() != "flac"@.len());
    reveal_strlit("wav"); assert("wav"@.len() != "flac"@.len());
    reveal_strlit("ogg"); assert("ogg"@.len() != "flac"@.len());
}

proof fn lemma_entry_aac()
    ensures
        mime_type_of("aac"@) == Some("audio/aac"@),
{
    reveal_strlit("aac");
    reveal_strlit("txt"); assert("txt"@[0] != "aac"@[0]);
    reveal_strlit("text"); assert("text"@.len() != "aac"@.len());
    reveal_strlit("log"); assert("log"@[0] != "aac"@[0]);
    reveal_strlit("html"); assert("html"@.len() != "aac"@.len());
    reveal_strlit("htm"); assert("htm"@[0] != "aac"@[0]);
    reveal_strlit("css"); assert("css"@[0] != "aac"@[0]);
    reveal_strlit("csv"); assert("csv"@[0] != "aac"@[0]);
    reveal_strlit("xml"); assert("xml"@[0] != "aac"@[0]);
    reveal_strlit("md"); assert("md"@.len() != "aac"@.len());
    reveal_strlit("markdown"); assert("markdown"@.len() != "aac"@.len());
    reveal_strlit("yaml"); assert("yaml"@.len() != "aac"@.len());
    reveal_strlit("yml"); assert("yml"@[0] != "aac"@[0]);
    reveal_strlit("ics"); assert("ics"@[0] != "aac"@[0]);
    reveal_strlit("rtf"); assert("rtf"@[0] != "aac"@[0]);
    reveal_strlit("json"); assert("json"@.len() != "aac"@.len());
    reveal_strlit("pdf"); assert("pdf"@[0] != "aac"@[0]);
    reveal_strlit("zip"); assert("zip"@[0] != "aac"@[0]);
    reveal_strlit("gz"); assert("gz"@.len() != "aac"@.len());
    reveal_strlit("gzip"); assert("gzip"@.len() != "aac"@.len());
    reveal_strlit("tar"); assert("tar"@[0] != "aac"@[0]);
    reveal_strlit("7z"); assert("7z"@.len() != "aac"@.len());
    reveal_strlit("rar"); assert("rar"@[0] != "aac"@[0]);
    reveal_strlit("js"); assert("js"@.len() != "aac"@.len());
    reveal_strlit("mjs"); assert("mjs"@[0] != "aac"@[0]);
    reveal_strlit("wasm"); assert("wasm"@.len() != "aac"@.len());
    reveal_strlit("xhtml"); assert("xhtml"@.len() != "aac"@.len());
    reveal_strlit("eml"); assert("eml"@[0] != "aac"@[0]);
    reveal_strlit("docx"); assert("docx"@.len() != "aac"@.len());
    reveal_strlit("xlsx"); assert("xlsx"@.len() != "aac"@.len());
    reveal_strlit("pptx"); assert("pptx"@.len() != "aac"@.len());
    reveal_strlit("doc"); assert("doc"@[0] != "aac"@[0]);
    reveal_strlit("xls"); assert("xls"@[0] != "aac"@[0]);
    reveal_strlit("ppt"); assert("ppt"@[0] != "aac"@[0]);
    reveal_strlit("png"); assert("png"@[0] != "aac"@[0]);
    reveal_strlit("jpg"); assert("jpg"@[0] != "aac"@[0]);
    reveal_strlit("jpeg"); assert("jpeg"@.len() != "aac"@.len());
    reveal_strlit("gif"); assert("gif"@[0] != "aac"@[0]);
    reveal_strlit("svg"); assert("svg"@[0] != "aac"@[0]);
    reveal_strlit("webp"); assert("webp"@.len() != "aac"@.len());
    reveal_strlit("ico"); assert("ico"@[0] != "aac"@[0]);
    reveal_strlit("bmp"); assert("bmp"@[0] != "aac"@[0]);
    reveal_strlit("tiff"); assert("tiff"@.len() != "aac"@.len());
    reveal_strlit("tif"); assert("tif"@[0] != "aac"@[0]);
    reveal_strlit("mp3"); assert("mp3"@[0] != "aac"@[0]);
    reveal_strlit("wav"); assert("wav"@[0] != "aac"@[0]);
    reveal_strlit("ogg"); assert("ogg"@[0] != "aac"@[0]);
    reveal_strlit("flac"); assert("flac"@.len() != "aac"@.len());
}

/// The table's entries for audio formats: each of these extensions gets this MIME type.
pub proof fn law_audio_entries()
    ensures
        mime_type_of("mp3"@) == Some("audio/mpeg"@),
        mime_type_of("wav"@) == Some("audio/wav"@),
        mime_type_of("ogg"@) == Some("audio/ogg"@),
        mime_type_of("flac"@) == Some("audio/flac"@),
        mime_type_of("aac"@) == Some("audio/aac"@),
{
    lemma_entry_mp3();
    lemma_entry_wav();
    lemma_entry_ogg();
    lemma_entry_flac();
    lemma_entry_aac();
}

proof fn lemma_entry_mp4()
    ensures
        mime_type_of("mp4"@) == Some("video/mp4"@),
{
    reveal_strlit("mp4");
    reveal_strlit("txt"); assert("txt"@[0] != "mp4"@[0]);
    reveal_strlit("text"); assert("text"@.len() != "mp4"@.len());
    reveal_strlit("log"); assert("log"@[0] != "mp4"@[0]);
    reveal_strlit("html"); assert("html"@.len() != "mp4"@.len());
    reveal_strlit("htm"); assert("htm"@[0] != "mp4"@[0]);
    reveal_strlit("css"); assert("css"@[0] != "mp4"@[0]);
    reveal_strlit("csv"); assert("csv"@[0] != "mp4"@[0]);
    reveal_strlit("xml"); assert("xml"@[0] != "mp4"@[0]);
    reveal_strlit("md"); assert("md"@.len() != "mp4"@.len());
    reveal_strlit("markdown"); assert("markdown"@.len() != "mp4"@.len());
    reveal_strlit("yaml"); assert("yaml"@.len() != "mp4"@.len());
    reveal_strlit("yml"); assert("yml"@[0] != "mp4"@[0]);
    reveal_strlit("ics"); assert("ics"@[0] != "mp4"@[0]);
    reveal_strlit("rtf"); assert("rtf"@[0] != "mp4"@[0]);
    reveal_strlit("json"); assert("json"@.len() != "mp4"@.len());
    reveal_strlit("pdf"); assert("pdf"@[0] != "mp4"@[0]);
    reveal_strlit("zip"); assert("zip"@[0] != "mp4"@[0]);
    reveal_strlit("gz"); assert("gz"@.len() != "mp4"@.len());
    reveal_strlit("gzip"); assert("gzip"@.len() != "mp4"@.len());
    reveal_strlit("tar"); assert("tar"@[0] != "mp4"@[0]);
    reveal_strlit("7z"); assert("7z"@.len() != "mp4"@.len());
    reveal_strlit("rar"); assert("rar"@[0] != "mp4"@[0]);
    reveal_strlit("js"); assert("js"@.len() != "mp4"@.len());
    reveal_strlit("mjs"); assert("mjs"@[1] != "mp4"@[1]);
    reveal_strlit("wasm"); assert("wasm"@.len() != "mp4"@.len());
    reveal_strlit("xhtml"); assert("xhtml"@.len() != "mp4"@.len());
    reveal_strlit("eml"); assert("eml"@[0] != "mp4"@[0]);
    reveal_strlit("docx"); assert("docx"@.len() != "mp4"@.len());
    reveal_strlit("xlsx"); assert("xlsx"@.len() != "mp4"@.len());
    reveal_strlit("pptx"); assert("pptx"@.len() != "mp4"@.len());
    reveal_strlit("doc"); assert("doc"@[0] != "mp4"@[0]);
    reveal_strlit("xls"); assert("xls"@[0] != "mp4"@[0]);
    reveal_strlit("ppt"); assert("ppt"@[0] != "mp4"@[0]);
    reveal_strlit("png"); assert("png"@[0] != "mp4"@[0]);
    reveal_strlit("jpg"); assert("jpg"@[0] != "mp4"@[0]);
    reveal_strlit("jpeg"); assert("jpeg"@.len() != "mp4"@.len());
    reveal_strlit("gif"); assert("gif"@[0] != "mp4"@[0]);
    reveal_strlit("svg"); assert("svg"@[0] != "mp4"@[0]);
    reveal_strlit("webp"); assert("webp"@.len() != "mp4"@.len());
    reveal_strlit("ico"); assert("ico"@[0] != "mp4"@[0]);
    reveal_strlit("bmp"); assert("bmp"@[0] != "mp4"@[0]);
    reveal_strlit("tiff"); assert("tiff"@.len() != "mp4"@.len());
    reveal_strlit("tif"); assert("tif"@[0] != "mp4"@[0]);
    reveal_strlit("mp3"); assert("mp3"@[2] != "mp4"@[2]);
    reveal_strlit("wav"); assert("wav"@[0] != "mp4"@[0]);
    reveal_strlit("ogg"); assert("ogg"@[0] != "mp4"@[0]);
    reveal_strlit("flac"); assert("flac"@.len() != "mp4"@.len());
    reveal_strlit("aac"); assert("aac"@[0] != "mp4"@[0]);
}

proof fn lemma_entry_webm()
    ensures
        mime_type_of("webm"@) == Some("video/webm"@),
{
    reveal_strlit("webm");
    reveal_strlit("txt"); assert("txt"@.len() != "webm"@.len());
    reveal_strlit("text"); assert("text"@[0] != "webm"@[0]);
    reveal_strlit("log"); assert("log"@.len() != "webm"@.len());
    reveal_strlit("html"); assert("html"@[0] != "webm"@[0]);
    reveal_strlit("htm"); assert("htm"@.len() != "webm"@.len());
    reveal_strlit("css"); assert("css"@.len() != "webm"@.len());
    reveal_strlit("csv"); assert("csv"@.len() != "webm"@.len());
    reveal_strlit("xml"); assert("xml"@.len() != "webm"@.len());
    reveal_strlit("md"); assert("md"@.len() != "webm"@.len());
    reveal_strlit("markdown"); assert("markdown"@.len() != "webm"@.len());
    reveal_strlit("yaml"); assert("yaml"@[0] != "webm"@[0]);
    reveal_strlit("yml"); assert("yml"@.len() != "webm"@.len());
    reveal_strlit("ics"); assert("ics"@.len() != "webm"@.len());
    reveal_strlit("rtf"); assert("rtf"@.len() != "webm"@.len());
    reveal_strlit("json"); assert("json"@[0] != "webm"@[0]);
    reveal_strlit("pdf"); assert("pdf"@.len() != "webm"@.len());
    reveal_strlit("zip"); assert("zip"@.len() != "webm"@.len());
    reveal_strlit("gz"); assert("gz"@.len() != "webm"@.len());
    reveal_strlit("gzip"); assert("gzip"@[0] != "webm"@[0]);
    reveal_strlit("tar"); assert("tar"@.len() != "webm"@.len());
    reveal_strlit("7z"); assert("7z"@.len() != "webm"@.len());
    reveal_strlit("rar"); assert("rar"@.len() != "webm"@.len());
    reveal_strlit("js"); assert("js"@.len() != "webm"@.len());
    reveal_strlit("mjs"); assert("mjs"@.len() != "webm"@.len());
    reveal_strlit("wasm"); assert("wasm"@[1] != "webm"@[1]);
    reveal_strlit("xhtml"); assert("xhtml"@.len() != "webm"@.len());
    reveal_strlit("eml"); assert("eml"@.len() != "webm"@.len());
    reveal_strlit("docx"); assert("docx"@[0] != "webm"@[0]);
    reveal_strlit("xlsx"); assert("xlsx"@[0] != "webm"@[0]);
    reveal_strlit("pptx"); assert("pptx"@[0] != "webm"@[0]);
    reveal_strlit("doc"); assert("doc"@.len() != "webm"@.len());
    reveal_strlit("xls"); assert("xls"@.len() != "webm"@.len());
    reveal_strlit("ppt"); assert("ppt"@.len() != "webm"@.len());
    reveal_strlit("png"); assert("png"@.len() != "webm"@.len());
    reveal_strlit("jpg"); assert("jpg"@.len() != "webm"@.len());
    reveal_strlit("jpeg"); assert("jpeg"@[0] != "webm"@[0]);
    reveal_strlit("gif"); assert("gif"@.len() != "webm"@.len());
    reveal_strlit("svg"); assert("svg"@.len() != "webm"@.len());
    reveal_strlit("webp"); assert("webp"@[3] != "webm"@[3]);
    reveal_strlit("ico"); assert("ico"@.len() != "webm"@.len());
    reveal_strlit("bmp"); assert("bmp"@.len() != "webm"@.len());
    reveal_strlit("tiff"); assert("tiff"@[0] != "webm"@[0]);
    reveal_strlit("tif"); assert("tif"@.len() != "webm"@.len());
    reveal_strlit("mp3"); assert("mp3"@.len() != "webm"@.len());
    reveal_strlit("wav"); assert("wav"@.len() != "webm"@.len());
    reveal_strlit("ogg"); assert("ogg"@.len() != "webm"@.len());
    reveal_strlit("flac"); assert("flac"@[0] != "webm"@[0]);
    reveal_strlit("aac"); assert("aac"@.len() != "webm"@.len());
    reveal_strlit("mp4"); assert("mp4"@.len() != "webm"@.len());
}

proof fn lemma_entry_avi()
    ensures
        mime_type_of("avi"@) == Some("video/x-msvideo"@),
{
    reveal_strlit("avi");
    reveal_strlit("txt"); assert("txt"@[0] != "avi"@[0]);
    reveal_strlit("text"); assert("text"@.len() != "avi"@.len());
    reveal_strlit("log"); assert("log"@[0] != "avi"@[0]);
    reveal_strlit("html"); assert("html"@.len() != "avi"@.len());
    reveal_strlit("htm"); assert("htm"@[0] != "avi"@[0]);
    reveal_strlit("css"); assert("css"@[0] != "avi"@[0]);
    reveal_strlit("csv"); assert("csv"@[0] != "avi"@[0]);
    reveal_strlit("xml"); assert("xml"@[0] != "avi"@[0]);
    reveal_strlit("md"); assert("md"@.len() != "avi"@.len());
    reveal_strlit("markdown"); assert("markdown"@.len() != "avi"@.len());
    reveal_strlit("yaml"); assert("yaml"@.len() != "avi"@.len());
    reveal_strlit("yml"); assert("yml"@[0] != "avi"@[0]);
    reveal_strlit("ics"); assert("ics"@[0] != "avi"@[0]);
    reveal_strlit("rtf"); assert("rtf"@[0] != "avi"@[0]);
    reveal_strlit("json"); assert("json"@.len() != "avi"@.len());
    reveal_strlit("pdf"); assert("pdf"@[0] != "avi"@[0]);
    reveal_strlit("zip"); assert("zip"@[0] != "avi"@[0]);
    reveal_strlit("gz"); assert("gz"@.len() != "avi"@.len());
    reveal_strlit("gzip"); assert("gzip"@.len() != "avi"@.len());
    reveal_strlit("tar"); assert("tar"@[0] != "avi"@[0]);
    reveal_strlit("7z"); assert("7z"@.len() != "avi"@.len());
    reveal_strlit("rar"); assert("rar"@[0] != "avi"@[0]);
    reveal_strlit("js"); assert("js"@.len() != "avi"@.len());
    reveal_strlit("mjs"); assert("mjs"@[0] != "avi"@[0]);
    reveal_strlit("wasm"); assert("wasm"@.len() != "avi"@.len());
    reveal_strlit("xhtml"); assert("xhtml"@.len() != "avi"@.len());
    reveal_strlit("eml"); assert("eml"@[0] != "avi"@[0]);
    reveal_strlit("docx"); assert("docx"@.len() != "avi"@.len());
    reveal_strlit("xlsx"); assert("xlsx"@.len() != "avi"@.len());
    reveal_strlit("pptx"); assert("pptx"@.len() != "avi"@.len());
    reveal_strlit("doc"); assert("doc"@[0] != "avi"@[0]);
    reveal_strlit("xls"); assert("xls"@[0] != "avi"@[0]);
    reveal_strlit("ppt"); assert("ppt"@[0] != "avi"@[0]);
    reveal_strlit("png"); assert("png"@[0] != "avi"@[0]);
    reveal_strlit("jpg"); assert("jpg"@[0] != "avi"@[0]);
    reveal_strlit("jpeg"); assert("jpeg"@.len() != "avi"@.len());
    reveal_strlit("gif"); assert("gif"@[0] != "avi"@[0]);
    reveal_strlit("svg"); assert("svg"@[0] != "avi"@[0]);
    reveal_strlit("webp"); assert("webp"@.len() != "avi"@.len());
    reveal_strlit("ico"); assert("ico"@[0] != "avi"@[0]);
    reveal_strlit("bmp"); assert("bmp"@[0] != "avi"@[0]);
    reveal_strlit("tiff"); assert("tiff"@.len() != "avi"@.len());
    reveal_strlit("tif"); assert("tif"@[0] != "avi"@[0]);
    reveal_strlit("mp3"); assert("mp3"@[0] != "avi"@[0]);
    reveal_strlit("wav"); assert("wav"@[0] != "avi"@[0]);
    reveal_strlit("ogg"); assert("ogg"@[0] != "avi"@[0]);
    reveal_strlit("flac"); assert("flac"@.len() != "avi"@.len());
    reveal_strlit("aac"); assert("aac"@[1] != "avi"@[1]);
    reveal_strlit("mp4"); assert("mp4"@[0] != "avi"@[0]);
    reveal_strlit("webm"); assert("webm"@.len() != "avi"@.len());
}

proof fn lemma_entry_mov()
    ensures
        mime_type_of("mov"@) == Some("video/quicktime"@),
{
    reveal_strlit("mov");
    reveal_strlit("txt"); assert("txt"@[0] != "mov"@[0]);
    reveal_strlit("text"); assert("text"@.len() != "mov"@.len());
    reveal_strlit("log"); assert("log"@[0] != "mov"@[0]);
    reveal_strlit("html"); assert("html"@.len() != "mov"@.len());
    reveal_strlit("htm"); assert("htm"@[0] != "mov"@[0]);
    reveal_strlit("css"); assert("css"@[0] != "mov"@[0]);
    reveal_strlit("csv"); assert("csv"@[0] != "mov"@[0]);
    reveal_strlit("xml"); assert("xml"@[0] != "mov"@[0]);
    reveal_strlit("md"); assert("md"@.len() != "mov"@.len());
    reveal_strlit("markdown"); assert("markdown"@.len() != "mov"@.len());
    reveal_strlit("yaml"); assert("yaml"@.len() != "mov"@.len());
    reveal_strlit("yml"); assert("yml"@[0] != "mov"@[0]);
    reveal_strlit("ics"); assert("ics"@[0] != "mov"@[0]);
    reveal_strlit("rtf"); assert("rtf"@[0] != "mov"@[0]);
    reveal_strlit("json"); assert("json"@.len() != "mov"@.len());
    reveal_strlit("pdf"); assert("pdf"@[0] != "mov"@[0]);
    reveal_strlit("zip"); assert("zip"@[0] != "mov"@[0]);
    reveal_strlit("gz"); assert("gz"@.len() != "mov"@.len());
    reveal_strlit("gzip"); assert("gzip"@.len() != "mov"@.len());
    reveal_strlit("tar"); assert("tar"@[0] != "mov"@[0]);
    reveal_strlit("7z"); assert("7z"@.len() != "mov"@.len());
    reveal_strlit("rar"); assert("rar"@[0] != "mov"@[0]);
    reveal_strlit("js"); assert("js"@.len() != "mov"@.len());
    reveal_strlit("mjs"); assert("mjs"@[1] != "mov"@[1]);
    reveal_strlit("wasm"); assert("wasm"@.len() != "mov"@.len());
    reveal_strlit("xhtml"); assert("xhtml"@.len() != "mov"@.len());
    reveal_strlit("eml"); assert("eml"@[0] != "mov"@[0]);
    reveal_strlit("docx"); assert("docx"@.len() != "mov"@.len());
    reveal_strlit("xlsx"); assert("xlsx"@.len() != "mov"@.len());
    reveal_strlit("pptx"); assert("pptx"@.len() != "mov"@.len());
    reveal_strlit("doc"); assert("doc"@[0] != "mov"@[0]);
    reveal_strlit("xls"); assert("xls"@[0] != "mov"@[0]);
    reveal_strlit("ppt"); assert("ppt"@[0] != "mov"@[0]);
    reveal_strlit("png"); assert("png"@[0] != "mov"@[0]);
    reveal_strlit("jpg"); assert("jpg"@[0] != "mov"@[0]);
    reveal_strlit("jpeg"); assert("jpeg"@.len() != "mov"@.len());
    reveal_strlit("gif"); assert("gif"@[0] != "mov"@[0]);
    reveal_strlit("svg"); assert("svg"@[0] != "mov"@[0]);
    reveal_strlit("webp"); assert("webp"@.len() != "mov"@.len());
    reveal_strlit("ico"); assert("ico"@[0] != "mov"@[0]);
    reveal_strlit("bmp"); assert("bmp"@[0] != "mov"@[0]);
    reveal_strlit("tiff"); assert("tiff"@.len() != "mov"@.len());
    reveal_strlit("tif"); assert("tif"@[0] != "mov"@[0]);
    reveal_strlit("mp3"); assert("mp3"@[1] != "mov"@[1]);
    reveal_strlit("wav"); assert("wav"@[0] != "mov"@[0]);
    reveal_strlit("ogg"); assert("ogg"@[0] != "mov"@[0]);
    reveal_strlit("flac"); assert("flac"@.len() != "mov"@.len());
    reveal_strlit("aac"); assert("aac"@[0] != "mov"@[0]);
    reveal_strlit("mp4"); assert("mp4"@[1] != "mov"@[1]);
    reveal_strlit("webm"); assert("webm"@.len() != "mov"@.len());
    reveal_strlit("avi"); assert("avi"@[0] != "mov"@[0]);
}

proof fn lemma_entry_mkv()
    ensures
        mime_type_of("mkv"@) == Some("video/x-matroska"@),
{
    reveal_strlit("mkv");
    reveal_strlit("txt"); assert("txt"@[0] != "mkv"@[0]);
    reveal_strlit("text"); assert("text"@.len() != "mkv"@.len());
    reveal_strlit("log"); assert("log"@[0] != "mkv"@[0]);
    reveal_strlit("html"); assert("html"@.len() != "mkv"@.len());
    reveal_strlit("htm"); assert("htm"@[0] != "mkv"@[0]);
    reveal_strlit("css"); assert("css"@[0] != "mkv"@[0]);
    reveal_strlit("csv"); assert("csv"@[0] != "mkv"@[0]);
    reveal_strlit("xml"); assert("xml"@[0] != "mkv"@[0]);
    reveal_strlit("md"); assert("md"@.len() != "mkv"@.len());
    reveal_strlit("markdown"); assert("markdown"@.len() != "mkv"@.len());
    reveal_strlit("yaml"); assert("yaml"@.len() != "mkv"@.len());
    reveal_strlit("yml"); assert("yml"@[0] != "mkv"@[0]);
    reveal_strlit("ics"); assert("ics"@[0] != "mkv"@[0]);
    reveal_strlit("rtf"); assert("rtf"@[0] != "mkv"@[0]);
    reveal_strlit("json"); assert("json"@.len() != "mkv"@.len());
    reveal_strlit("pdf"); assert("pdf"@[0] != "mkv"@[0]);
    reveal_strlit("zip"); assert("zip"@[0] != "mkv"@[0]);
    reveal_strlit("gz"); assert("gz"@.len() != "mkv"@.len());
    reveal_strlit("gzip"); assert("gzip"@.len() != "mkv"@.len());
    reveal_strlit("tar"); assert("tar"@[0] != "mkv"@[0]);
    reveal_strlit("7z"); assert("7z"@.len() != "mkv"@.len());
    reveal_strlit("rar"); assert("rar"@[0] != "mkv"@[0]);
    reveal_strlit("js"); assert("js"@.len() != "mkv"@.len());
    reveal_strlit("mjs"); assert("mjs"@[1] != "mkv"@[1]);
    reveal_strlit("wasm"); assert("wasm"@.len() != "mkv"@.len());
    reveal_strlit("xhtml"); assert("xhtml"@.len() != "mkv"@.len());
    reveal_strlit("eml"); assert("eml"@[0] != "mkv"@[0]);
    reveal_strlit("docx"); assert("docx"@.len() != "mkv"@.len());
    reveal_strlit("xlsx"); assert("xlsx"@.len() != "mkv"@.len());
    reveal_strlit("pptx"); assert("pptx"@.len() != "mkv"@.len());
    reveal_strlit("doc"); assert("doc"@[0] != "mkv"@[0]);
    reveal_strlit("xls"); assert("xls"@[0] != "mkv"@[0]);
    reveal_strlit("ppt"); assert("ppt"@[0] != "mkv"@[0]);
    reveal_strlit("png"); assert("png"@[0] != "mkv"@[0]);
    reveal_strlit("jpg"); assert("jpg"@[0] != "mkv"@[0]);
    reveal_strlit("jpeg"); assert("jpeg"@.len() != "mkv"@.len());
    reveal_strlit("gif"); assert("gif"@[0] != "mkv"@[0]);
    reveal_strlit("svg"); assert("svg"@[0] != "mkv"@[0]);
    reveal_strlit("webp"); assert("webp"@.len() != "mkv"@.len());
    reveal_strlit("ico"); assert("ico"@[0] != "mkv"@[0]);
    reveal_strlit("bmp"); assert("bmp"@[0] != "mkv"@[0]);
    reveal_strlit("tiff"); assert("tiff"@.len() != "mkv"@.len());
    reveal_strlit("tif"); assert("tif"@[0] != "mkv"@[0]);
    reveal_strlit("mp3"); assert("mp3"@[1] != "mkv"@[1]);
    reveal_strlit("wav"); assert("wav"@[0] != "mkv"@[0]);
    reveal_strlit("ogg"); assert("ogg"@[0] != "mkv"@[0]);
    reveal_strlit("flac"); assert("flac"@.len() != "mkv"@.len());
    reveal_strlit("aac"); assert("aac"@[0] != "mkv"@[0]);
    reveal_strlit("mp4"); assert("mp4"@[1] != "mkv"@[1]);
    reveal_strlit("webm"); assert("webm"@.len() != "mkv"@.len());
    reveal_strlit("avi"); assert("avi"@[0] != "mkv"@[0]);
    reveal_strlit("mov"); assert("mov"@[1] != "mkv"@[1]);
}

/// The table's entries for video formats: each of these extensions gets this MIME type.
pub proof fn law_video_entries()
    ensures
        mime_type_of("mp4"@) == Some("video/mp4"@),
        mime_type_of("webm"@) == Some("video/webm"@),
        mime_type_of("avi"@) == Some("video/x-msvideo"@),
        mime_type_of("mov"@) == Some("video/quicktime"@),
        mime_type_of("mkv"@) == Some("video/x-matroska"@),
{
    lemma_entry_mp4();
    lemma_entry_webm();
    lemma_entry_avi();
    lemma_entry_mov();
    lemma_entry_mkv();
}

proof fn lemma_entry_woff()
    ensures
        mime_type_of("woff"@) == Some("font/woff"@),
{
    reveal_strlit("woff");
    reveal_strlit("txt"); assert("txt"@.len() != "woff"@.len());
    reveal_strlit("text"); assert("text"@[0] != "woff"@[0]);
    reveal_strlit("log"); assert("log"@.len() != "woff"@.len());
    reveal_strlit("html"); assert("html"@[0] != "woff"@[0]);
    reveal_strlit("htm"); assert("htm"@.len() != "woff"@.len());
    reveal_strlit("css"); assert("css"@.len() != "woff"@.len());
    reveal_strlit("csv"); assert("csv"@.len() != "woff"@.len());
    reveal_strlit("xml"); assert("xml"@.len() != "woff"@.len());
    reveal_strlit("md"); assert("md"@.len() != "woff"@.len());
    reveal_strlit("markdown"); assert("markdown"@.len() != "woff"@.len());
    reveal_strlit("yaml"); assert("yaml"@[0] != "woff"@[0]);
    reveal_strlit("yml"); assert("yml"@.len() != "woff"@.len());
    reveal_strlit("ics"); assert("ics"@.len() != "woff"@.len());
    reveal_strlit("rtf"); assert("rtf"@.len() != "woff"@.len());
    reveal_strlit("json"); assert("json"@[0] != "woff"@[0]);
    reveal_strlit("pdf"); assert("pdf"@.len() != "woff"@.len());
    reveal_strlit("zip"); assert("zip"@.len() != "woff"@.len());
    reveal_strlit("gz"); assert("gz"@.len() != "woff"@.len());
    reveal_strlit("gzip"); assert("gzip"@[0] != "woff"@[0]);
    reveal_strlit("tar"); assert("tar"@.len() != "woff"@.len());
    reveal_strlit("7z"); assert("7z"@.len() != "woff"@.len());
    reveal_strlit("rar"); assert("rar"@.len() != "woff"@.len());
    reveal_strlit("js"); assert("js"@.len() != "woff"@.len());
    reveal_strlit("mjs"); assert("mjs"@.len() != "woff"@.len());
    reveal_strlit("wasm"); assert("wasm"@[1] != "woff"@[1]);
    reveal_strlit("xhtml"); assert("xhtml"@.len() != "woff"@.len());
    reveal_strlit("eml"); assert("eml"@.len() != "woff"@.len());
    reveal_strlit("docx"); assert("docx"@[0] != "woff"@[0]);
    reveal_strlit("xlsx"); assert("xlsx"@[0] != "woff"@[0]);
    reveal_strlit("pptx"); assert("pptx"@[0] != "woff"@[0]);
    reveal_strlit("doc"); assert("doc"@.len() != "woff"@.len());
    reveal_strlit("xls"); assert("xls"@.len() != "woff"@.len());
    reveal_strlit("ppt"); assert("ppt"@.len() != "woff"@.len());
    reveal_strlit("png"); assert("png"@.len() != "woff"@.len());
    reveal_strlit("jpg"); assert("jpg"@.len() != "woff"@.len());
    reveal_strlit("jpeg"); assert("jpeg"@[0] != "woff"@[0]);
    reveal_strlit("gif"); assert("gif"@.len() != "woff"@.len());
    reveal_strlit("svg"); assert("svg"@.len() != "woff"@.len());
    reveal_strlit("webp"); assert("webp"@[1] != "woff"@[1]);
    reveal_strlit("ico"); assert("ico"@.len() != "woff"@.len());
    reveal_strlit("bmp"); assert("bmp"@.len() != "woff"@.len());
    reveal_strlit("tiff"); assert("tiff"@[0] != "woff"@[0]);
    reveal_strlit("tif"); assert("tif"@.len() != "woff"@.len());
    reveal_strlit("mp3"); assert("mp3"@.len() != "woff"@.len());
    reveal_strlit("wav"); assert("wav"@.len() != "woff"@.len());
    reveal_strlit("ogg"); assert("ogg"@.len() != "woff"@.len());
    reveal_strlit("flac"); assert("flac"@[0] != "woff"@[0]);
    reveal_strlit("aac"); assert("aac"@.len() != "woff"@.len());
    reveal_strlit("mp4"); assert("mp4"@.len() != "woff"@.len());
    reveal_strlit("webm"); assert("webm"@[1] != "woff"@[1]);
    reveal_strlit("avi"); assert("avi"@.len() != "woff"@.len());
    reveal_strlit("mov"); assert("mov"@.len() != "woff"@.len());
    reveal_strlit("mkv"); assert("mkv"@.len() != "woff"@.len());
}

proof fn lemma_entry_woff2()
    ensures
        mime_type_of("woff2"@) == Some("font/woff2"@),
{
    reveal_strlit("woff2");
    reveal_strlit("txt"); assert("txt"@.len() != "woff2"@.len());
    reveal_strlit("text"); assert("text"@.len() != "woff2"@.len());
    reveal_strlit("log"); assert("log"@.len() != "woff2"@.len());
    reveal_strlit("html"); assert("html"@.len() != "woff2"@.len());
    reveal_strlit("htm"); assert("htm"@.len() != "woff2"@.len());
    reveal_strlit("css"); assert("css"@.len() != "woff2"@.len());
    reveal_strlit("csv"); assert("csv"@.len() != "woff2"@.len());
    reveal_strlit("xml"); assert("xml"@.len() != "woff2"@.len());
    reveal_strlit("md"); assert("md"@.len() != "woff2"@.len());
    reveal_strlit("markdown"); assert("markdown"@.len() != "woff2"@.len());
    reveal_strlit("yaml"); assert("yaml"@.len() != "woff2"@.len());
    reveal_strlit("yml"); assert("yml"@.len() != "woff2"@.len());
    reveal_strlit("ics"); assert("ics"@.len() != "woff2"@.len());
    reveal_strlit("rtf"); assert("rtf"@.len() != "woff2"@.len());
    reveal_strlit("json"); assert("json"@.len() != "woff2"@.len());
    reveal_strlit("pdf"); assert("pdf"@.len() != "woff2"@.len());
    reveal_strlit("zip"); assert("zip"@.len() != "woff2"@.len());
    reveal_strlit("gz"); assert("gz"@.len() != "woff2"@.len());
    reveal_strlit("gzip"); assert("gzip"@.len() != "woff2"@.len());
    reveal_strlit("tar"); assert("tar"@.len() != "woff2"@.len());
    reveal_strlit("7z"); assert("7z"@.len() != "woff2"@.len());
    reveal_strlit("rar"); assert("rar"@.len() != "woff2"@.len());
    reveal_strlit("js"); assert("js"@.len() != "woff2"@.len());
    reveal_strlit("mjs"); assert("mjs"@.len() != "woff2"@.len());
    reveal_strlit("wasm"); assert("wasm"@.len() != "woff2"@.len());
    reveal_strlit("xhtml"); assert("xhtml"@[0] != "woff2"@[0]);
    reveal_strlit("eml"); assert("eml"@.len() != "woff2"@.len());
    reveal_strlit("docx"); assert("docx"@.len() != "woff2"@.len());
    reveal_strlit("xlsx"); assert("xlsx"@.len() != "woff2"@.len());
    reveal_strlit("pptx"); assert("pptx"@.len() != "woff2"@.len());
    reveal_strlit("doc"); assert("doc"@.len() != "woff2"@.len());
    reveal_strlit("xls"); assert("xls"@.len() != "woff2"@.len());
    reveal_strlit("ppt"); assert("ppt"@.len() != "woff2"@.len());
    reveal_strlit("png"); assert("png"@.len() != "woff2"@.len());
    reveal_strlit("jpg"); assert("jpg"@.len() != "woff2"@.len());
    reveal_strlit("jpeg"); assert("jpeg"@.len() != "woff2"@.len());
    reveal_strlit("gif"); assert("gif"@.len() != "woff2"@.len());
    reveal_strlit("svg"); assert("svg"@.len() != "woff2"@.len());
    reveal_strlit("webp"); assert("webp"@.len() != "woff2"@.len());
    reveal_strlit("ico"); assert("ico"@.len() != "woff2"@.len());
    reveal_strlit("bmp"); assert("bmp"@.len() != "woff2"@.len());
    reveal_strlit("tiff"); assert("tiff"@.len() != "woff2"@.len());
    reveal_strlit("tif"); assert("tif"@.len() != "woff2"@.len());
    reveal_strlit("mp3"); assert("mp3"@.len() != "woff2"@.len());
    reveal_strlit("wav"); assert("wav"@.len() != "woff2"@.len());
    reveal_strlit("ogg"); assert("ogg"@.len() != "woff2"@.len());
    reveal_strlit("flac"); assert("flac"@.len() != "woff2"@.len());
    reveal_strlit("aac"); assert("aac"@.len() != "woff2"@.len());
    reveal_strlit("mp4"); assert("mp4"@.len() != "woff2"@.len());
    reveal_strlit("webm"); assert("webm"@.len() != "woff2"@.len());
    reveal_strlit("avi"); assert("avi"@.len() != "woff2"@.len());
    reveal_strlit("mov"); assert("mov"@.len() != "woff2"@.len());
    reveal_strlit("mkv"); assert("mkv"@.len() != "woff2"@.len());
    reveal_strlit("woff"); assert("woff"@.len() != "woff2"@.len());
}

proof fn lemma_entry_ttf()
    ensures
        mime_type_of("ttf"@) == Some("font/ttf"@),
{
    reveal_strlit("ttf");
    reveal_strlit("txt"); assert("txt"@[1] != "ttf"@[1]);
    reveal_strlit("text"); assert("text"@.len() != "ttf"@.len());
    reveal_strlit("log"); assert("log"@[0] != "ttf"@[0]);
    reveal_strlit("html"); assert("html"@.len() != "ttf"@.len());
    reveal_strlit("htm"); assert("htm"@[0] != "ttf"@[0]);
    reveal_strlit("css"); assert("css"@[0] != "ttf"@[0]);
    reveal_strlit("csv"); assert("csv"@[0] != "ttf"@[0]);
    reveal_strlit("xml"); assert("xml"@[0] != "ttf"@[0]);
    reveal_strlit("md"); assert("md"@.len() != "ttf"@.len());
    reveal_strlit("markdown"); assert("markdown"@.len() != "ttf"@.len());
    reveal_strlit("yaml"); assert("yaml"@.len() != "ttf"@.len());
    reveal_strlit("yml"); assert("yml"@[0] != "ttf"@[0]);
    reveal_strlit("ics"); assert("ics"@[0] != "ttf"@[0]);
    reveal_strlit("rtf"); assert("rtf"@[0] != "ttf"@[0]);
    reveal_strlit("json"); assert("json"@.len() != "ttf"@.len());
    reveal_strlit("pdf"); assert("pdf"@[0] != "ttf"@[0]);
    reveal_strlit("zip"); assert("zip"@[0] != "ttf"@[0]);
    reveal_strlit("gz"); assert("gz"@.len() != "ttf"@.len());
    reveal_strlit("gzip"); assert("gzip"@.len() != "ttf"@.len());
    reveal_strlit("tar"); assert("tar"@[1] != "ttf"@[1]);
    reveal_strlit("7z"); assert("7z"@.len() != "ttf"@.len());
    reveal_strlit("rar"); assert("rar"@[0] != "ttf"@[0]);
    reveal_strlit("js"); assert("js"@.len() != "ttf"@.len());
    reveal_strlit("mjs"); assert("mjs"@[0] != "ttf"@[0]);
    reveal_strlit("wasm"); assert("wasm"@.len() != "ttf"@.len());
    reveal_strlit("xhtml"); assert("xhtml"@.len() != "ttf"@.len());
    reveal_strlit("eml"); assert("eml"@[0] != "ttf"@[0]);
    reveal_strlit("docx"); assert("docx"@.len() != "ttf"@.len());
    reveal_strlit("xlsx"); assert("xlsx"@.len() != "ttf"@.len());
    reveal_strlit("pptx"); assert("pptx"@.len() != "ttf"@.len());
    reveal_strlit("doc"); assert("doc"@[0] != "ttf"@[0]);
    reveal_strlit("xls"); assert("xls"@[0] != "ttf"@[0]);
    reveal_strlit("ppt"); assert("ppt"@[0] != "ttf"@[0]);
    reveal_strlit("png"); assert("png"@[0] != "ttf"@[0]);
    reveal_strlit("jpg"); assert("jpg"@[0] != "ttf"@[0]);
    reveal_strlit("jpeg"); assert("jpeg"@.len() != "ttf"@.len());
    reveal_strlit("gif"); assert("gif"@[0] != "ttf"@[0]);
    reveal_strlit("svg"); assert("svg"@[0] != "ttf"@[0]);
    reveal_strlit("webp"); assert("webp"@.len() != "ttf"@.len());
    reveal_strlit("ico"); assert("ico"@[0] != "ttf"@[0]);
    reveal_strlit("bmp"); assert("bmp"@[0] != "ttf"@[0]);
    reveal_strlit("tiff"); assert("tiff"@.len() != "ttf"@.len());
    reveal_strlit("tif"); assert("tif"@[1] != "ttf"@[1]);
    reveal_strlit("mp3"); assert("mp3"@[0] != "ttf"@[0]);
    reveal_strlit("wav"); assert("wav"@[0] != "ttf"@[0]);
    reveal_strlit("ogg"); assert("ogg"@[0] != "ttf"@[0]);
    reveal_strlit("flac"); assert("flac"@.len() != "ttf"@.len());
    reveal_strlit("aac"); assert("aac"@[0] != "ttf"@[0]);
    reveal_strlit("mp4"); assert("mp4"@[0] != "ttf"@[0]);
    reveal_strlit("webm"); assert("webm"@.len() != "ttf"@.len());
    reveal_strlit("avi"); assert("avi"@[0] != "ttf"@[0]);
    reveal_strlit("mov"); assert("mov"@[0] != "ttf"@[0]);
    reveal_strlit("mkv"); assert("mkv"@[0] != "ttf"@[0]);
    reveal_strlit("woff"); assert("woff"@.len() != "ttf"@.len());
    reveal_strlit("woff2"); assert("woff2"@.len() != "ttf"@.len());
}

proof fn lemma_entry_otf()
    ensures
        mime_type_of("otf"@) == Some("font/otf"@),
{
    reveal_strlit("otf");
    reveal_strlit("txt"); assert("txt"@[0] != "otf"@[0]);
    reveal_strlit("text"); assert("text"@.len() != "otf"@.len());
    reveal_strlit("log"); assert("log"@[0] != "otf"@[0]);
    reveal_strlit("html"); assert("html"@.len() != "otf"@.len());
    reveal_strlit("htm"); assert("htm"@[0] != "otf"@[0]);
    reveal_strlit("css"); assert("css"@[0] != "otf"@[0]);
    reveal_strlit("csv"); assert("csv"@[0] != "otf"@[0]);
    reveal_strlit("xml"); assert("xml"@[0] != "otf"@[0]);
    reveal_strlit("md"); assert("md"@.len() != "otf"@.len());
    reveal_strlit("markdown"); assert("markdown"@.len() != "otf"@.len());
    reveal_strlit("yaml"); assert("yaml"@.len() != "otf"@.len());
    reveal_strlit("yml"); assert("yml"@[0] != "otf"@[0]);
    reveal_strlit("ics"); assert("ics"@[0] != "otf"@[0]);
    reveal_strlit("rtf"); assert("rtf"@[0] != "otf"@[0]);
    reveal_strlit("json"); assert("json"@.len() != "otf"@.len());
    reveal_strlit("pdf"); assert("pdf"@[0] != "otf"@[0]);
    reveal_strlit("zip"); assert("zip"@[0] != "otf"@[0]);
    reveal_strlit("gz"); assert("gz"@.len() != "otf"@.len());
    reveal_strlit("gzip"); assert("gzip"@.len() != "otf"@.len());
    reveal_strlit("tar"); assert("tar"@[0] != "otf"@[0]);
    reveal_strlit("7z"); assert("7z"@.len() != "otf"@.len());
    reveal_strlit("rar"); assert("rar"@[0] != "otf"@[0]);
    reveal_strlit("js"); assert("js"@.len() != "otf"@.len());
    reveal_strlit("mjs"); assert("mjs"@[0] != "otf"@[0]);
    reveal_strlit("wasm"); assert("wasm"@.len() != "otf"@.len());
    reveal_strlit("xhtml"); assert("xhtml"@.len() != "otf"@.len());
    reveal_strlit("eml"); assert("eml"@[0] != "otf"@[0]);
    reveal_strlit("docx"); assert("docx"@.len() != "otf"@.len());
    reveal_strlit("xlsx"); assert("xlsx"@.len() != "otf"@.len());
    reveal_strlit("pptx"); assert("pptx"@.len() != "otf"@.len());
    reveal_strlit("doc"); assert("doc"@[0] != "otf"@[0]);
    reveal_strlit("xls"); assert("xls"@[0] != "otf"@[0]);
    reveal_strlit("ppt"); assert("ppt"@[0] != "otf"@[0]);
    reveal_strlit("png"); assert("png"@[0] != "otf"@[0]);
    reveal_strlit("jpg"); assert("jpg"@[0] != "otf"@[0]);
    reveal_strlit("jpeg"); assert("jpeg"@.len() != "otf"@.len());
    reveal_strlit("gif"); assert("gif"@[0] != "otf"@[0]);
    reveal_strlit("svg"); assert("svg"@[0] != "otf"@[0]);
    reveal_strlit("webp"); assert("webp"@.len() != "otf"@.len());
    reveal_strlit("ico"); assert("ico"@[0] != "otf"@[0]);
    reveal_strlit("bmp"); assert("bmp"@[0] != "otf"@[0]);
    reveal_strlit("tiff"); assert("tiff"@.len() != "otf"@.len());
    reveal_strlit("tif"); assert("tif"@[0] != "otf"@[0]);
    reveal_strlit("mp3"); assert("mp3"@[0] != "otf"@[0]);
    reveal_strlit("wav"); assert("wav"@[0] != "otf"@[0]);
    reveal_strlit("ogg"); assert("ogg"@[1] != "otf"@[1]);
    reveal_strlit("flac"); assert("flac"@.len() != "otf"@.len());
    reveal_strlit("aac"); assert("aac"@[0] != "otf"@[0]);
    reveal_strlit("mp4"); assert("mp4"@[0] != "otf"@[0]);
    reveal_strlit("webm"); assert("webm"@.len() != "otf"@.len());
    reveal_strlit("avi"); assert("avi"@[0] != "otf"@[0]);
    reveal_strlit("mov"); assert("mov"@[0] != "otf"@[0]);
    reveal_strlit("mkv"); assert("mkv"@[0] != "otf"@[0]);
    reveal_strlit("woff"); assert("woff"@.len() != "otf"@.len());
    reveal_strlit("woff2"); assert("woff2"@.len() != "otf"@.len());
    reveal_strlit("ttf"); assert("ttf"@[0] != "otf"@[0]);
}

/// The table's entries for web and desktop fonts: each of these extensions gets this MIME type.
pub proof fn law_font_entries()
    ensures
        mime_type_of("woff"@) == Some("font/woff"@),
        mime_type_of("woff2"@) == Some("font/woff2"@),
        mime_type_of("ttf"@) == Some("font/ttf"@),
        mime_type_of("otf"@) == Some("font/otf"@),
{
    lemma_entry_woff();
    lemma_entry_woff2();
    lemma_entry_ttf();
    lemma_entry_otf();
}

} // verus!
