//! Requests for static files, which are served from the public directory
//! instead of being forwarded: which paths they are, where the file lies,
//! its content type, and how long it may be cached.
use vstd::prelude::*;
use crate::outgoing::{lower_of, to_lower};
use crate::text::{contains, ends_with, starts_with, str_contains, str_ends_with, str_eq, str_starts_with};

verus! {

/// The path's extension as `Path::extension` gives it (the part of the last
/// component after its last dot), or the empty text where there is none.
pub uninterp spec fn extension_of(path: Seq<char>) -> Seq<char>;

/// Relies on `std::path::Path::extension`; an extension that is not UTF-8
/// counts as none.
#[verifier::external_body]
fn path_extension(path: &str) -> (r: String)
    ensures
        r@ == extension_of(path@),
{
    match std::path::Path::new(path).extension() {
        Some(e) => e.to_str().unwrap_or("").to_string(),
        None => String::new(),
    }
}

/// Paths that name a static file: a typical asset extension, the favicon,
/// or a path under `/assets/` or `/build/`.
pub open spec fn is_static_path(p: Seq<char>) -> bool {
    ||| ends_with(p, ".ico"@)
    ||| ends_with(p, ".css"@)
    ||| ends_with(p, ".js"@)
    ||| ends_with(p, ".png"@)
    ||| ends_with(p, ".jpg"@)
    ||| ends_with(p, ".jpeg"@)
    ||| ends_with(p, ".gif"@)
    ||| ends_with(p, ".svg"@)
    ||| ends_with(p, ".woff"@)
    ||| ends_with(p, ".woff2"@)
    ||| ends_with(p, ".ttf"@)
    ||| ends_with(p, ".eot"@)
    ||| ends_with(p, ".pdf"@)
    ||| ends_with(p, ".txt"@)
    ||| ends_with(p, ".json"@)
    ||| ends_with(p, ".xml"@)
    ||| ends_with(p, ".map"@)
    ||| ends_with(p, ".webp"@)
    ||| ends_with(p, ".avif"@)
    ||| p == "/favicon.ico"@
    ||| starts_with(p, "/assets/"@)
    ||| starts_with(p, "/build/"@)
}

/// Whether a request path is for a static file.
pub fn is_static_file_request(uri_path: &str) -> (r: bool)
    ensures
        r == is_static_path(uri_path@),
{
    str_ends_with(uri_path, ".ico") || str_ends_with(uri_path, ".css") || str_ends_with(uri_path, ".js")
        || str_ends_with(uri_path, ".png") || str_ends_with(uri_path, ".jpg") || str_ends_with(uri_path, ".jpeg")
        || str_ends_with(uri_path, ".gif") || str_ends_with(uri_path, ".svg") || str_ends_with(uri_path, ".woff")
        || str_ends_with(uri_path, ".woff2") || str_ends_with(uri_path, ".ttf") || str_ends_with(uri_path, ".eot")
        || str_ends_with(uri_path, ".pdf") || str_ends_with(uri_path, ".txt") || str_ends_with(uri_path, ".json")
        || str_ends_with(uri_path, ".xml") || str_ends_with(uri_path, ".map") || str_ends_with(uri_path, ".webp")
        || str_ends_with(uri_path, ".avif") || str_eq(uri_path, "/favicon.ico") || str_starts_with(
        uri_path,
        "/assets/",
    ) || str_starts_with(uri_path, "/build/")
}

/// The file that serves a static request: the path under `../public`.
pub fn static_file_path(uri_path: &str) -> (r: String)
    ensures
        r@ == "../public"@ + uri_path@,
{
    let mut r = "../public".to_owned();
    r.append(uri_path);
    r
}

/// The media type for a lower-case extension.
pub open spec fn media_type_for(ext: Seq<char>) -> Seq<char> {
    if ext == "html"@ || ext == "htm"@ {
        "text/html"@
    } else if ext == "css"@ {
        "text/css"@
    } else if ext == "js"@ || ext == "mjs"@ {
        "application/javascript"@
    } else if ext == "json"@ {
        "application/json"@
    } else if ext == "xml"@ {
        "application/xml"@
    } else if ext == "txt"@ {
        "text/plain"@
    } else if ext == "ico"@ {
        "image/vnd.microsoft.icon"@
    } else if ext == "svg"@ {
        "image/svg+xml"@
    } else if ext == "png"@ {
        "image/png"@
    } else if ext == "jpg"@ || ext == "jpeg"@ {
        "image/jpeg"@
    } else if ext == "gif"@ {
        "image/gif"@
    } else if ext == "webp"@ {
        "image/webp"@
    } else if ext == "avif"@ {
        "image/avif"@
    } else if ext == "woff"@ {
        "font/woff"@
    } else if ext == "woff2"@ {
        "font/woff2"@
    } else if ext == "ttf"@ {
        "font/ttf"@
    } else if ext == "eot"@ {
        "application/vnd.ms-fontobject"@
    } else if ext == "pdf"@ {
        "application/pdf"@
    } else {
        "application/octet-stream"@
    }
}

fn media_type(ext: &str) -> (r: &'static str)
    ensures
        r@ == media_type_for(ext@),
{
    if str_eq(ext, "html") || str_eq(ext, "htm") {
        "text/html"
    } else if str_eq(ext, "css") {
        "text/css"
    } else if str_eq(ext, "js") || str_eq(ext, "mjs") {
        "application/javascript"
    } else if str_eq(ext, "json") {
        "application/json"
    } else if str_eq(ext, "xml") {
        "application/xml"
    } else if str_eq(ext, "txt") {
        "text/plain"
    } else if str_eq(ext, "ico") {
        "image/vnd.microsoft.icon"
    } else if str_eq(ext, "svg") {
        "image/svg+xml"
    } else if str_eq(ext, "png") {
        "image/png"
    } else if str_eq(ext, "jpg") || str_eq(ext, "jpeg") {
        "image/jpeg"
    } else if str_eq(ext, "gif") {
        "image/gif"
    } else if str_eq(ext, "webp") {
        "image/webp"
    } else if str_eq(ext, "avif") {
        "image/avif"
    } else if str_eq(ext, "woff") {
        "font/woff"
    } else if str_eq(ext, "woff2") {
        "font/woff2"
    } else if str_eq(ext, "ttf") {
        "font/ttf"
    } else if str_eq(ext, "eot") {
        "application/vnd.ms-fontobject"
    } else if str_eq(ext, "pdf") {
        "application/pdf"
    } else {
        "application/octet-stream"
    }
}

/// The content type of a file, by its extension in lower case.
pub fn get_content_type(file_path: &str) -> (r: &'static str)
    ensures
        r@ == media_type_for(lower_of(extension_of(file_path@))),
{
    let ext = path_extension(file_path);
    let lower = to_lower(ext.as_str());
    media_type(lower.as_str())
}

/// Versioned assets (under `/build/`, or with a dot in the path that does
/// not end in `.html`) may be cached for a year; the rest for a day.
pub open spec fn cache_control_for(uri_path: Seq<char>) -> Seq<char> {
    if starts_with(uri_path, "/build/"@) || (contains(uri_path, "."@) && !ends_with(uri_path, ".html"@)) {
        "public, max-age=31536000"@
    } else {
        "public, max-age=86400"@
    }
}

/// The `Cache-Control` value for a static file.
pub fn cache_control(uri_path: &str) -> (r: &'static str)
    ensures
        r@ == cache_control_for(uri_path@),
{
    if str_starts_with(uri_path, "/build/") || (str_contains(uri_path, ".") && !str_ends_with(uri_path, ".html")) {
        "public, max-age=31536000"
    } else {
        "public, max-age=86400"
    }
}

} // verus!
