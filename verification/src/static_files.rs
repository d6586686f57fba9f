//! Serving files: the asset subtree, and the application root with its
//! fallback to the entry document.
//!
//! Reading a file is the caller's part. A lookup says which path to read
//! next, takes what the read gave, and ends in a response. A file that was
//! read is sent with the content type of its extension; where the extension
//! is one of the cacheable ones it carries the cache directive that lets it be
//! kept for a year. Under the application root a path that cannot be read
//! falls back to the entry document, once; where that cannot be read either,
//! the answer is the page that says the frontend is not built.

use vstd::prelude::*;
use vstd::utf8::encode_utf8;
use crate::paths::{climbs, extension, extension_of, has_parent_component, join, joined};
use crate::response::{Response, ResponseView};
use crate::settings::Settings;
use crate::text::{same_text, strip_leading, without_leading};

verus! {

/// The document that the single-page application starts from.
pub const ENTRY_DOCUMENT: &'static str = "index.html";

/// The directory that the asset subtree is served from.
pub const ASSET_ROOT: &'static str = "static/assets";

/// The cache directive of cacheable files: public, for one year, and never
/// to be asked for again within it.
pub const CACHE_DIRECTIVE: &'static str = "public, max-age=31536000, immutable";

/// The content type of a file without an extension.
pub const OCTET_STREAM: &'static str = "application/octet-stream";

/// The content type of the page sent when the frontend is not built.
pub const HTML_UTF_8: &'static str = "text/html; charset=utf-8";

/// The page sent when the entry document is missing.
pub const NOT_BUILT_PAGE: &'static str = r#"
                    <html>
                        <body>
                            <h1>OxPrint</h1>
                            <p>Frontend not built. Run the build script to generate static assets.</p>
                        </body>
                    </html>
                "#;

/// A step of a lookup.
#[derive(Debug, Clone, PartialEq, Eq)]
pub enum Lookup {
    /// The file at `path` is to be read next.
    Read { path: String },
    /// The lookup has ended in this response.
    Respond(Response),
}

/// A step of a lookup as values.
pub enum LookupView {
    Read { path: Seq<char> },
    Respond(ResponseView),
}

impl View for Lookup {
    type V = LookupView;

    open spec fn view(&self) -> LookupView {
        match self {
            Lookup::Read { path } => LookupView::Read { path: path@ },
            Lookup::Respond(response) => LookupView::Respond(response@),
        }
    }
}

/// The media type that `mime_guess` gives first for an extension, or
/// `application/octet-stream` where it knows none.
pub uninterp spec fn guessed_mime(ext: Seq<char>) -> Seq<char>;

/// Asks `mime_guess`: `from_ext` looks the extension up in its table, without
/// regard to case, and `first_or_octet_stream` takes the first media type
/// found, or `application/octet-stream`. The contract claims only that the
/// answer depends on the extension alone.
#[verifier::external_body]
fn guess_mime(ext: &str) -> (mime: String)
    ensures
        mime@ == guessed_mime(ext@),
{
    mime_guess::from_ext(ext).first_or_octet_stream().as_ref().to_string()
}

/// The content type of the file at `path`: that of its extension, and
/// `application/octet-stream` for a path without one.
pub open spec fn content_type_of(path: Seq<char>) -> Seq<char> {
    match extension_of(path) {
        Some(ext) => guessed_mime(ext),
        None => OCTET_STREAM@,
    }
}

/// The extensions of files that may be cached: style sheets, scripts and
/// images.
pub open spec fn cacheable(ext: Seq<char>) -> bool {
    ext == "css"@ || ext == "js"@ || ext == "png"@ || ext == "jpg"@ || ext == "gif"@ || ext
        == "svg"@
}

/// The cache directive of the file at `path`: the one-year directive where
/// its extension is cacheable, none otherwise.
pub open spec fn cache_directive_of(path: Seq<char>) -> Option<Seq<char>> {
    match extension_of(path) {
        Some(ext) => if cacheable(ext) {
            Some(CACHE_DIRECTIVE@)
        } else {
            None
        },
        None => None,
    }
}

/// The response that sends the file read at `path` as a file of type `mime`.
pub open spec fn sent(path: Seq<char>, mime: Seq<char>, contents: Seq<u8>) -> ResponseView {
    ResponseView {
        status: 200,
        content_type: Some(mime),
        cache_control: cache_directive_of(path),
        body: contents,
    }
}

/// The response that sends the file read at `path`.
pub open spec fn found(path: Seq<char>, contents: Seq<u8>) -> ResponseView {
    sent(path, content_type_of(path), contents)
}

/// The response that says the frontend is not built.
pub open spec fn not_built() -> ResponseView {
    ResponseView {
        status: 404,
        content_type: Some(HTML_UTF_8@),
        cache_control: None,
        body: encode_utf8(NOT_BUILT_PAGE@),
    }
}

/// The response for an asset that is not there: not found, with no body.
pub open spec fn asset_not_found() -> ResponseView {
    ResponseView { status: 404, content_type: None, cache_control: None, body: Seq::empty() }
}

/// The path of the entry document under `static_dir`.
pub open spec fn entry_path(static_dir: Seq<char>) -> Seq<char> {
    joined(static_dir, ENTRY_DOCUMENT@)
}

/// The step after the file at `path` was tried under the application root:
/// `contents` is what was read, if it could be. A file that was read is sent.
/// A path that was not falls back to the entry document, unless it is the
/// entry document's own path: then the frontend is not built.
pub open spec fn after_read(
    static_dir: Seq<char>,
    path: Seq<char>,
    contents: Option<Seq<u8>>,
) -> LookupView {
    match contents {
        Some(bytes) => LookupView::Respond(found(path, bytes)),
        None => if path != entry_path(static_dir) {
            LookupView::Read { path: entry_path(static_dir) }
        } else {
            LookupView::Respond(not_built())
        },
    }
}

/// The step after the asset at `path` was tried: sent if it was read, not
/// found otherwise. Assets have no fallback.
pub open spec fn after_asset_read(path: Seq<char>, contents: Option<Seq<u8>>) -> ResponseView {
    match contents {
        Some(bytes) => found(path, bytes),
        None => asset_not_found(),
    }
}

/// The file path that a request path names: the request path without the
/// `/` that it starts with.
pub open spec fn relative(request_path: Seq<char>) -> Seq<char> {
    without_leading(request_path, seq!['/'])
}

/// The first step for a request under the application root. A request path
/// with a `..` component names nothing under the static directory, so the
/// entry document is read at once.
pub open spec fn spa_lookup(static_dir: Seq<char>, request_path: Seq<char>) -> LookupView {
    if climbs(relative(request_path)) {
        LookupView::Read { path: entry_path(static_dir) }
    } else {
        LookupView::Read { path: joined(static_dir, relative(request_path)) }
    }
}

/// The first step for a request under the asset subtree. A request path with
/// a `..` component names no asset.
pub open spec fn asset_lookup(request_path: Seq<char>) -> LookupView {
    if climbs(relative(request_path)) {
        LookupView::Respond(asset_not_found())
    } else {
        LookupView::Read { path: joined(ASSET_ROOT@, relative(request_path)) }
    }
}

/// What a lookup under the application root reads at `path` of a file system
/// that holds `files`.
pub open spec fn read_from(files: Map<Seq<char>, Seq<u8>>, path: Seq<char>) -> Option<Seq<u8>> {
    if files.contains_key(path) {
        Some(files[path])
    } else {
        None
    }
}

/// One step of a lookup under the application root against `files`: a
/// pending read is made and answered; a response stays.
pub open spec fn step(
    static_dir: Seq<char>,
    lookup: LookupView,
    files: Map<Seq<char>, Seq<u8>>,
) -> LookupView {
    match lookup {
        LookupView::Read { path } => after_read(static_dir, path, read_from(files, path)),
        LookupView::Respond(_) => lookup,
    }
}

/// What the application root serves for `file_path` from `files`: the file
/// itself where it can be read, else the entry document where that can be
/// read, else the page that says the frontend is not built.
pub open spec fn served(
    static_dir: Seq<char>,
    file_path: Seq<char>,
    files: Map<Seq<char>, Seq<u8>>,
) -> ResponseView {
    let path = joined(static_dir, file_path);
    let entry = entry_path(static_dir);
    if files.contains_key(path) {
        found(path, files[path])
    } else if files.contains_key(entry) {
        found(entry, files[entry])
    } else {
        not_built()
    }
}

/// Whether files with this extension may be cached.
pub fn is_cacheable(ext: &str) -> (yes: bool)
    ensures
        yes == cacheable(ext@),
{
    same_text(ext, "css") || same_text(ext, "js") || same_text(ext, "png") || same_text(ext, "jpg")
        || same_text(ext, "gif") || same_text(ext, "svg")
}

/// The content type of the file at `path`, from its extension.
pub fn content_type(path: &str) -> (mime: String)
    ensures
        mime@ == content_type_of(path@),
{
    match extension(path) {
        Some(ext) => guess_mime(ext.as_str()),
        None => OCTET_STREAM.to_owned(),
    }
}

/// The cache directive of the file at `path`, from its extension.
pub fn cache_directive(path: &str) -> (directive: Option<String>)
    ensures
        directive.deep_view() == cache_directive_of(path@),
{
    match extension(path) {
        Some(ext) => if is_cacheable(ext.as_str()) {
            Some(CACHE_DIRECTIVE.to_owned())
        } else {
            None
        },
        None => None,
    }
}

/// The response that sends the file read at `path` as a file of type `mime`:
/// status 200, that content type, the cache directive exactly where the
/// extension is cacheable, and the contents as they are.
pub fn send_file(path: &str, mime: String, contents: Vec<u8>) -> (response: Response)
    ensures
        response@ == sent(path@, mime@, contents@),
{
    Response {
        status: 200,
        content_type: Some(mime),
        cache_control: cache_directive(path),
        body: contents,
    }
}

/// The response that sends the file read at `path`, with the content type of
/// its extension.
pub fn file_response(path: &str, contents: Vec<u8>) -> (response: Response)
    ensures
        response@ == found(path@, contents@),
{
    let mime = content_type(path);
    send_file(path, mime, contents)
}

/// The page that says the frontend is not built, with status 404.
pub fn not_built_page() -> (response: Response)
    ensures
        response@ == not_built(),
{
    Response {
        status: 404,
        content_type: Some(HTML_UTF_8.to_owned()),
        cache_control: None,
        body: NOT_BUILT_PAGE.as_bytes_vec(),
    }
}

/// The answer for an asset that is not there: status 404 and nothing else.
pub fn asset_not_found_response() -> (response: Response)
    ensures
        response@ == asset_not_found(),
{
    Response { status: 404, content_type: None, cache_control: None, body: Vec::new() }
}

/// Starts a lookup of `file_path` under `static_dir`: the file itself is read
/// first.
pub fn serve_file(static_dir: &str, file_path: &str) -> (lookup: Lookup)
    ensures
        lookup@ == (LookupView::Read { path: joined(static_dir@, file_path@) }),
{
    Lookup::Read { path: join(static_dir, file_path) }
}

/// Takes what reading `path` gave, `None` where it could not be read, and
/// says how the lookup under `static_dir` goes on: with the file's response,
/// with one read of the entry document, or, where the entry document itself
/// was missing, with the page that says the frontend is not built.
pub fn file_read(static_dir: &str, path: &str, contents: Option<Vec<u8>>) -> (next: Lookup)
    ensures
        next@ == after_read(static_dir@, path@, contents.deep_view()),
{
    match contents {
        Some(bytes) => {
            proof {
                assert(bytes.deep_view() =~= bytes@);
            }
            Lookup::Respond(file_response(path, bytes))
        },
        None => {
            let entry = join(static_dir, ENTRY_DOCUMENT);
            if same_text(path, entry.as_str()) {
                Lookup::Respond(not_built_page())
            } else {
                Lookup::Read { path: entry }
            }
        },
    }
}

/// Takes what reading the asset at `path` gave: the file's response, or not
/// found.
pub fn asset_read(path: &str, contents: Option<Vec<u8>>) -> (response: Response)
    ensures
        response@ == after_asset_read(path@, contents.deep_view()),
{
    match contents {
        Some(bytes) => {
            proof {
                assert(bytes.deep_view() =~= bytes@);
            }
            file_response(path, bytes)
        },
        None => asset_not_found_response(),
    }
}

/// Starts the lookup for a request that no other route takes: the request
/// path is looked up under the static directory of `settings`.
pub fn spa_handler(settings: &Settings, request_path: &str) -> (lookup: Lookup)
    ensures
        lookup@ == spa_lookup(settings@.server.static_dir, request_path@),
{
    proof {
        reveal_strlit("/");
        assert("/"@ =~= seq!['/']);
    }
    let file_path = strip_leading(request_path, "/");
    if has_parent_component(file_path.as_str()) {
        serve_file(settings.server.static_dir.as_str(), ENTRY_DOCUMENT)
    } else {
        serve_file(settings.server.static_dir.as_str(), file_path.as_str())
    }
}

/// Starts the lookup for a request under the asset subtree: the request path
/// is looked up under the asset root.
pub fn assets_service(request_path: &str) -> (lookup: Lookup)
    ensures
        lookup@ == asset_lookup(request_path@),
{
    proof {
        reveal_strlit("/");
        assert("/"@ =~= seq!['/']);
    }
    let file_path = strip_leading(request_path, "/");
    if has_parent_component(file_path.as_str()) {
        Lookup::Respond(asset_not_found_response())
    } else {
        serve_file(ASSET_ROOT, file_path.as_str())
    }
}

/// A file that was read carries the cache directive exactly where its
/// extension is one of the cacheable ones, under the application root and
/// under the asset subtree alike.
pub proof fn lemma_cache_directive_follows_extension(path: Seq<char>, contents: Seq<u8>)
    ensures
        found(path, contents).cache_control == if extension_of(path) is Some && cacheable(
            extension_of(path).unwrap(),
        ) {
            Some(CACHE_DIRECTIVE@)
        } else {
            None
        },
        after_asset_read(path, Some(contents)).cache_control == found(path, contents).cache_control,
        forall|static_dir: Seq<char>|
            after_read(static_dir, path, Some(contents)) == LookupView::Respond(
                found(path, contents),
            ),
{
}

/// A lookup under the application root ends within two reads, in what
/// `served` says: there is at most one fallback.
pub proof fn lemma_lookup_ends_after_one_fallback(
    static_dir: Seq<char>,
    file_path: Seq<char>,
    files: Map<Seq<char>, Seq<u8>>,
)
    ensures
        step(
            static_dir,
            step(static_dir, LookupView::Read { path: joined(static_dir, file_path) }, files),
            files,
        ) == LookupView::Respond(served(static_dir, file_path, files)),
        step(static_dir, LookupView::Read { path: entry_path(static_dir) }, files)
            is Respond,
{
}

/// A request under the application root is answered within two reads: with
/// what `served` says of its path, and with what it says of the entry document
/// where the path has a `..` component.
pub proof fn lemma_request_is_answered(
    static_dir: Seq<char>,
    request_path: Seq<char>,
    files: Map<Seq<char>, Seq<u8>>,
)
    ensures
        step(static_dir, step(static_dir, spa_lookup(static_dir, request_path), files), files)
            == LookupView::Respond(
            served(
                static_dir,
                if climbs(relative(request_path)) {
                    ENTRY_DOCUMENT@
                } else {
                    relative(request_path)
                },
                files,
            ),
        ),
{
}

/// A path that cannot be read under the static directory is answered as the
/// entry document is: with the entry document where that can be read, and
/// with the page that says the frontend is not built where it cannot.
pub proof fn lemma_missing_path_serves_entry_document(
    static_dir: Seq<char>,
    file_path: Seq<char>,
    files: Map<Seq<char>, Seq<u8>>,
)
    requires
        !files.contains_key(joined(static_dir, file_path)),
    ensures
        served(static_dir, file_path, files) == served(static_dir, ENTRY_DOCUMENT@, files),
        served(static_dir, file_path, files) == if files.contains_key(entry_path(static_dir)) {
            found(entry_path(static_dir), files[entry_path(static_dir)])
        } else {
            not_built()
        },
{
}

} // verus!
