//! A resource that serves the files and directories under a base directory:
//! how a `file://` URI names a path inside it, how a file's type decides
//! whether it is read as text or as base64 bytes, how a directory is
//! listed, and which subscribed files changed.
use vstd::prelude::*;
use crate::client_id::ClientId;
use crate::registry::Registry;
use crate::resources::{NotificationPlan, ResourceError, ResourceManager};
use crate::schema::{ReadResourceResult, Resource, ResourceContents, ResourceTemplate};
use crate::text::{append_str, from_chars, has_prefix, prefix_at, str_eq, to_chars};

verus! {

/// What `url::Url::parse` gives for a URI: its scheme and path, or the
/// message of the parse error.
pub uninterp spec fn url_parse(uri: Seq<char>) -> Result<(Seq<char>, Seq<char>), Seq<char>>;

/// Parses a URI with `url::Url::parse` and reads its `scheme()` and
/// `path()`; named by `url_parse`.
#[verifier::external_body]
fn parse_url(uri: &str) -> (r: Result<(String, String), String>)
    ensures
        match (r, url_parse(uri@)) {
            (Ok((s, p)), Ok((s2, p2))) => s@ == s2 && p@ == p2,
            (Err(m), Err(m2)) => m@ == m2,
            _ => false,
        },
{
    match url::Url::parse(uri) {
        Ok(u) => Ok((u.scheme().to_string(), u.path().to_string())),
        Err(e) => Err(e.to_string()),
    }
}

/// The extension of a path's file name, as `Path::extension` gives it when
/// it is valid UTF-8.
pub uninterp spec fn path_extension(path: Seq<char>) -> Option<Seq<char>>;

/// `Path::new(path).extension()` as a string; named by `path_extension`.
#[verifier::external_body]
pub(crate) fn extension_of(path: &str) -> (r: Option<String>)
    ensures
        match (r, path_extension(path@)) {
            (Some(e), Some(e2)) => e@ == e2,
            (None, None) => true,
            _ => false,
        },
{
    std::path::Path::new(path).extension().and_then(|e| e.to_str()).map(|e| e.to_string())
}

/// Whether `base` is a prefix of `path` component by component, as
/// `Path::starts_with` decides.
pub uninterp spec fn path_has_prefix(path: Seq<char>, base: Seq<char>) -> bool;

/// `Path::new(path).starts_with(base)`; named by `path_has_prefix`.
#[verifier::external_body]
fn path_starts_with(path: &str, base: &str) -> (b: bool)
    ensures
        b == path_has_prefix(path@, base@),
{
    std::path::Path::new(path).starts_with(base)
}

/// The character of a base64 digit of the standard alphabet.
pub open spec fn base64_digit(v: int) -> char {
    if v < 26 {
        (65 + v) as char
    } else if v < 52 {
        (97 + v - 26) as char
    } else if v < 62 {
        (48 + v - 52) as char
    } else if v == 62 {
        '+'
    } else {
        '/'
    }
}

/// The standard base64 encoding, with `=` padding.
pub open spec fn base64(b: Seq<u8>) -> Seq<char>
    decreases b.len(),
{
    if b.len() == 0 {
        Seq::empty()
    } else {
        let b0 = b[0] as int;
        let b1 = if b.len() > 1 { b[1] as int } else { 0 };
        let b2 = if b.len() > 2 { b[2] as int } else { 0 };
        let c0 = base64_digit(b0 / 4);
        let c1 = base64_digit((b0 % 4) * 16 + b1 / 16);
        let c2 = base64_digit((b1 % 16) * 4 + b2 / 64);
        let c3 = base64_digit(b2 % 64);
        if b.len() == 1 {
            seq![c0, c1, '=', '=']
        } else if b.len() == 2 {
            seq![c0, c1, c2, '=']
        } else {
            seq![c0, c1, c2, c3] + base64(b.subrange(3, b.len() as int))
        }
    }
}

/// The bytes in standard base64 with padding, from
/// `base64::engine::general_purpose::STANDARD`.
#[verifier::external_body]
fn base64_encode(bytes: &Vec<u8>) -> (s: String)
    ensures
        s@ == base64(bytes@),
{
    base64::Engine::encode(&base64::engine::general_purpose::STANDARD, bytes)
}

/// The MIME type a file extension stands for.
pub open spec fn mime_of_extension(e: Seq<char>) -> Option<Seq<char>> {
    if e == "txt"@ {
        Some("text/plain"@)
    } else if e == "md"@ {
        Some("text/markdown"@)
    } else if e == "html"@ {
        Some("text/html"@)
    } else if e == "css"@ {
        Some("text/css"@)
    } else if e == "js"@ {
        Some("application/javascript"@)
    } else if e == "json"@ {
        Some("application/json"@)
    } else if e == "xml"@ {
        Some("application/xml"@)
    } else if e == "pdf"@ {
        Some("application/pdf"@)
    } else if e == "png"@ {
        Some("image/png"@)
    } else if e == "jpg"@ || e == "jpeg"@ {
        Some("image/jpeg"@)
    } else if e == "gif"@ {
        Some("image/gif"@)
    } else if e == "svg"@ {
        Some("image/svg+xml"@)
    } else {
        None
    }
}

/// The MIME type of a path, by its extension.
pub open spec fn mime_of_path(path: Seq<char>) -> Option<Seq<char>> {
    match path_extension(path) {
        Some(e) => mime_of_extension(e),
        None => None,
    }
}

/// Whether `p` occurs in `s`.
pub open spec fn has_infix(s: Seq<char>, p: Seq<char>) -> bool {
    exists|i: int| 0 <= i <= s.len() && has_prefix(s.subrange(i, s.len() as int), p)
}

/// Whether a file of this MIME type is binary: neither text nor JSON, XML or
/// JavaScript.
pub open spec fn binary_mime(m: Seq<char>) -> bool {
    !has_prefix(m, "text/"@) && !has_infix(m, "json"@) && !has_infix(m, "xml"@) && !has_infix(m, "javascript"@)
}

/// Whether a path is read as base64 bytes rather than text.
pub open spec fn reads_binary(path: Seq<char>) -> bool {
    match mime_of_path(path) {
        Some(m) => binary_mime(m),
        None => false,
    }
}

/// A text in which no two neighbouring characters are the first two of
/// `p` does not hold `p`.
proof fn lemma_no_infix(s: Seq<char>, p: Seq<char>)
    requires
        p.len() >= 2,
        forall|k: int| 0 <= k < s.len() - 1 ==> !(#[trigger] s[k] == p[0] && s[k + 1] == p[1]),
    ensures
        !has_infix(s, p),
{
    if has_infix(s, p) {
        let i = choose|i: int| 0 <= i <= s.len() && has_prefix(s.subrange(i, s.len() as int), p);
        let t = s.subrange(i, s.len() as int);
        assert(t.subrange(0, p.len() as int) == p);
        assert(t[0] == p[0] && t[1] == p[1]);
        assert(s[i] == t[0] && s[i + 1] == t[1]);
    }
}

/// The image types: binary, as they neither start with `text/` nor name
/// JSON, XML or JavaScript.
proof fn lemma_image_types_binary()
    ensures
        binary_mime("image/png"@),
        binary_mime("image/jpeg"@),
        binary_mime("image/gif"@),
        binary_mime("application/pdf"@),
{
    reveal_strlit("image/png");
    reveal_strlit("image/jpeg");
    reveal_strlit("image/gif");
    reveal_strlit("text/");
    reveal_strlit("json");
    reveal_strlit("xml");
    reveal_strlit("javascript");
    let t = "text/"@;
    let json = "json"@;
    let xml = "xml"@;
    let js = "javascript"@;
    assert(t.len() == 5 && t[0] == 't');
    assert(json.len() == 4 && json[0] == 'j' && json[1] == 's');
    assert(xml.len() == 3 && xml[0] == 'x' && xml[1] == 'm');
    assert(js.len() == 10 && js[0] == 'j' && js[1] == 'a');
    let png = "image/png"@;
    let jpeg = "image/jpeg"@;
    let gif = "image/gif"@;
    assert(png.len() == 9 && jpeg.len() == 10 && gif.len() == 9);
    assert(png.subrange(0, 5)[0] == 'i');
    assert(jpeg.subrange(0, 5)[0] == 'i');
    assert(gif.subrange(0, 5)[0] == 'i');
    assert forall|k: int| 0 <= k < png.len() - 1 implies #[trigger] png[k] != 'j' && png[k] != 'x' by {
        assert(k == 0 || k == 1 || k == 2 || k == 3 || k == 4 || k == 5 || k == 6 || k == 7);
    }
    assert forall|k: int| 0 <= k < gif.len() - 1 implies #[trigger] gif[k] != 'j' && gif[k] != 'x' by {
        assert(k == 0 || k == 1 || k == 2 || k == 3 || k == 4 || k == 5 || k == 6 || k == 7);
    }
    assert forall|k: int| 0 <= k < jpeg.len() - 1 implies #[trigger] jpeg[k] != 'x' && !(jpeg[k] == 'j'
        && (jpeg[k + 1] == 's' || jpeg[k + 1] == 'a')) by {
        assert(k == 0 || k == 1 || k == 2 || k == 3 || k == 4 || k == 5 || k == 6 || k == 7 || k == 8);
    }
    lemma_no_infix(png, json);
    lemma_no_infix(png, xml);
    lemma_no_infix(png, js);
    lemma_no_infix(gif, json);
    lemma_no_infix(gif, xml);
    lemma_no_infix(gif, js);
    reveal_strlit("application/pdf");
    let pdf = "application/pdf"@;
    assert(pdf.len() == 15);
    assert(pdf.subrange(0, 5)[0] == 'a');
    assert forall|k: int| 0 <= k < pdf.len() - 1 implies #[trigger] pdf[k] != 'j' && pdf[k] != 'x' by {
        assert(k == 0 || k == 1 || k == 2 || k == 3 || k == 4 || k == 5 || k == 6 || k == 7 || k == 8
            || k == 9 || k == 10 || k == 11 || k == 12 || k == 13);
    }
    lemma_no_infix(pdf, json);
    lemma_no_infix(pdf, xml);
    lemma_no_infix(pdf, js);
    lemma_no_infix(jpeg, json);
    lemma_no_infix(jpeg, xml);
    lemma_no_infix(jpeg, js);
}

/// Every PNG, JPEG, GIF or PDF file, whatever its path, has the type of
/// its format and is read as binary (served as a base64 blob).
pub proof fn lemma_images_are_binary(path: Seq<char>)
    ensures
        path_extension(path) == Some("png"@) ==> mime_of_path(path) == Some("image/png"@) && reads_binary(path),
        path_extension(path) == Some("jpg"@) || path_extension(path) == Some("jpeg"@)
            ==> mime_of_path(path) == Some("image/jpeg"@) && reads_binary(path),
        path_extension(path) == Some("gif"@) ==> mime_of_path(path) == Some("image/gif"@) && reads_binary(path),
        path_extension(path) == Some("pdf"@) ==> mime_of_path(path) == Some("application/pdf"@)
            && reads_binary(path),
{
    lemma_extensions_distinct();
    lemma_image_types_binary();
}

/// The file extensions that have a MIME type are distinct names.
proof fn lemma_extensions_distinct()
    ensures
        "txt"@ != "md"@,
        "txt"@ != "html"@,
        "txt"@ != "css"@,
        "txt"@ != "js"@,
        "txt"@ != "json"@,
        "txt"@ != "xml"@,
        "txt"@ != "pdf"@,
        "txt"@ != "png"@,
        "txt"@ != "jpg"@,
        "txt"@ != "jpeg"@,
        "txt"@ != "gif"@,
        "txt"@ != "svg"@,
        "md"@ != "html"@,
        "md"@ != "css"@,
        "md"@ != "js"@,
        "md"@ != "json"@,
        "md"@ != "xml"@,
        "md"@ != "pdf"@,
        "md"@ != "png"@,
        "md"@ != "jpg"@,
        "md"@ != "jpeg"@,
        "md"@ != "gif"@,
        "md"@ != "svg"@,
        "html"@ != "css"@,
        "html"@ != "js"@,
        "html"@ != "json"@,
        "html"@ != "xml"@,
        "html"@ != "pdf"@,
        "html"@ != "png"@,
        "html"@ != "jpg"@,
        "html"@ != "jpeg"@,
        "html"@ != "gif"@,
        "html"@ != "svg"@,
        "css"@ != "js"@,
        "css"@ != "json"@,
        "css"@ != "xml"@,
        "css"@ != "pdf"@,
        "css"@ != "png"@,
        "css"@ != "jpg"@,
        "css"@ != "jpeg"@,
        "css"@ != "gif"@,
        "css"@ != "svg"@,
        "js"@ != "json"@,
        "js"@ != "xml"@,
        "js"@ != "pdf"@,
        "js"@ != "png"@,
        "js"@ != "jpg"@,
        "js"@ != "jpeg"@,
        "js"@ != "gif"@,
        "js"@ != "svg"@,
        "json"@ != "xml"@,
        "json"@ != "pdf"@,
        "json"@ != "png"@,
        "json"@ != "jpg"@,
        "json"@ != "jpeg"@,
        "json"@ != "gif"@,
        "json"@ != "svg"@,
        "xml"@ != "pdf"@,
        "xml"@ != "png"@,
        "xml"@ != "jpg"@,
        "xml"@ != "jpeg"@,
        "xml"@ != "gif"@,
        "xml"@ != "svg"@,
        "pdf"@ != "png"@,
        "pdf"@ != "jpg"@,
        "pdf"@ != "jpeg"@,
        "pdf"@ != "gif"@,
        "pdf"@ != "svg"@,
        "png"@ != "jpg"@,
        "png"@ != "jpeg"@,
        "png"@ != "gif"@,
        "png"@ != "svg"@,
        "jpg"@ != "jpeg"@,
        "jpg"@ != "gif"@,
        "jpg"@ != "svg"@,
        "jpeg"@ != "gif"@,
        "jpeg"@ != "svg"@,
        "gif"@ != "svg"@,
{
    reveal_strlit("txt");
    reveal_strlit("md");
    reveal_strlit("html");
    reveal_strlit("css");
    reveal_strlit("js");
    reveal_strlit("json");
    reveal_strlit("xml");
    reveal_strlit("pdf");
    reveal_strlit("png");
    reveal_strlit("jpg");
    reveal_strlit("jpeg");
    reveal_strlit("gif");
    reveal_strlit("svg");
    assert("txt"@.len() == 3);
    assert("md"@.len() == 2);
    assert("html"@.len() == 4);
    assert("css"@.len() == 3);
    assert("js"@.len() == 2);
    assert("json"@.len() == 4);
    assert("xml"@.len() == 3);
    assert("pdf"@.len() == 3);
    assert("png"@.len() == 3);
    assert("jpg"@.len() == 3);
    assert("jpeg"@.len() == 4);
    assert("gif"@.len() == 3);
    assert("svg"@.len() == 3);
    assert("txt"@[0] != "css"@[0]);
    assert("txt"@[0] != "xml"@[0]);
    assert("txt"@[0] != "pdf"@[0]);
    assert("txt"@[0] != "png"@[0]);
    assert("txt"@[0] != "jpg"@[0]);
    assert("txt"@[0] != "gif"@[0]);
    assert("txt"@[0] != "svg"@[0]);
    assert("md"@[0] != "js"@[0]);
    assert("html"@[0] != "json"@[0]);
    assert("html"@[0] != "jpeg"@[0]);
    assert("css"@[0] != "xml"@[0]);
    assert("css"@[0] != "pdf"@[0]);
    assert("css"@[0] != "png"@[0]);
    assert("css"@[0] != "jpg"@[0]);
    assert("css"@[0] != "gif"@[0]);
    assert("css"@[0] != "svg"@[0]);
    assert("json"@[1] != "jpeg"@[1]);
    assert("xml"@[0] != "pdf"@[0]);
    assert("xml"@[0] != "png"@[0]);
    assert("xml"@[0] != "jpg"@[0]);
    assert("xml"@[0] != "gif"@[0]);
    assert("xml"@[0] != "svg"@[0]);
    assert("pdf"@[1] != "png"@[1]);
    assert("pdf"@[0] != "jpg"@[0]);
    assert("pdf"@[0] != "gif"@[0]);
    assert("pdf"@[0] != "svg"@[0]);
    assert("png"@[0] != "jpg"@[0]);
    assert("png"@[0] != "gif"@[0]);
    assert("png"@[0] != "svg"@[0]);
    assert("jpg"@[0] != "gif"@[0]);
    assert("jpg"@[0] != "svg"@[0]);
    assert("gif"@[0] != "svg"@[0]);
}

/// A file without an extension, or with one of no known type, has no MIME
/// type and is read as text.
pub proof fn lemma_unknown_types_read_as_text(path: Seq<char>)
    ensures
        ({
            match path_extension(path) {
                None => true,
                Some(e) => e != "txt"@ && e != "md"@ && e != "html"@ && e != "css"@ && e != "js"@
                    && e != "json"@ && e != "xml"@ && e != "pdf"@ && e != "png"@ && e != "jpg"@
                    && e != "jpeg"@ && e != "gif"@ && e != "svg"@,
            }
        }) ==> mime_of_path(path) is None && !reads_binary(path),
{
}

/// A text that holds `p` from position `i` on holds it.
proof fn lemma_infix_at(s: Seq<char>, p: Seq<char>, i: int)
    requires
        0 <= i,
        i + p.len() <= s.len(),
        s.subrange(i, i + p.len()) == p,
    ensures
        has_infix(s, p),
{
    assert(s.subrange(i, s.len() as int).subrange(0, p.len() as int) =~= s.subrange(i, i + p.len()));
}

/// Every text, Markdown, HTML, CSS, JSON, JavaScript, XML or SVG file,
/// whatever its path, is read as text.
pub proof fn lemma_text_files_read_as_text(path: Seq<char>)
    ensures
        ({
            let e = path_extension(path);
            e == Some("txt"@) || e == Some("md"@) || e == Some("html"@) || e == Some("css"@)
                || e == Some("json"@) || e == Some("js"@) || e == Some("xml"@) || e == Some("svg"@)
        }) ==> mime_of_path(path) is Some && !reads_binary(path),
{
    lemma_extensions_distinct();
    reveal_strlit("text/plain");
    reveal_strlit("text/markdown");
    reveal_strlit("text/html");
    reveal_strlit("text/css");
    reveal_strlit("text/");
    reveal_strlit("application/json");
    reveal_strlit("application/javascript");
    reveal_strlit("application/xml");
    reveal_strlit("image/svg+xml");
    reveal_strlit("json");
    reveal_strlit("xml");
    reveal_strlit("javascript");
    assert("text/plain"@.subrange(0, 5) =~= "text/"@);
    assert("text/markdown"@.subrange(0, 5) =~= "text/"@);
    assert("text/html"@.subrange(0, 5) =~= "text/"@);
    assert("text/css"@.subrange(0, 5) =~= "text/"@);
    assert("application/json"@.subrange(12, 16) =~= "json"@);
    lemma_infix_at("application/json"@, "json"@, 12);
    assert("application/javascript"@.subrange(12, 22) =~= "javascript"@);
    lemma_infix_at("application/javascript"@, "javascript"@, 12);
    assert("application/xml"@.subrange(12, 15) =~= "xml"@);
    lemma_infix_at("application/xml"@, "xml"@, 12);
    assert("image/svg+xml"@.subrange(10, 13) =~= "xml"@);
    lemma_infix_at("image/svg+xml"@, "xml"@, 10);
}

/// Whether `p` occurs in `s`.
fn contains_str(s: &str, p: &str) -> (b: bool)
    ensures
        b == has_infix(s@, p@),
{
    let sc = to_chars(s);
    let pc = to_chars(p);
    let mut i: usize = 0;
    while i < sc.len()
        invariant
            i <= sc.len(),
            sc@ == s@,
            pc@ == p@,
            forall|j: int| 0 <= j < i ==> !has_prefix(sc@.subrange(j, sc.len() as int), pc@),
        decreases sc.len() - i,
    {
        if prefix_at(&sc, i, &pc) {
            assert(0 <= i <= sc.len() && has_prefix(sc@.subrange(i as int, sc.len() as int), pc@));
            return true;
        }
        i = i + 1;
    }
    if prefix_at(&sc, sc.len(), &pc) {
        assert(has_prefix(sc@.subrange(sc.len() as int, sc.len() as int), pc@));
        return true;
    }
    assert forall|j: int| 0 <= j <= s@.len() implies !has_prefix(s@.subrange(j, s@.len() as int), p@) by {
        if j < sc.len() {
        }
    }
    false
}

/// The URI of a path: `file://` followed by the path.
pub open spec fn file_uri(path: Seq<char>) -> Seq<char> {
    "file://"@ + path
}

/// A path made absolute against the base directory, as `Path::join` does
/// on Unix: an absolute path stays as it is; a relative one is appended to
/// the base with a `/` between them unless the base is empty or ends with
/// one.
pub open spec fn joined(base: Seq<char>, path: Seq<char>) -> Seq<char> {
    if path.len() > 0 && path[0] == '/' {
        path
    } else if base.len() == 0 || base.last() == '/' {
        base + path
    } else {
        base + seq!['/'] + path
    }
}

/// The path a URI names, before it is checked against the disk.
#[derive(Debug, Clone, PartialEq, Eq)]
pub enum UriTarget {
    /// The URI names the base directory.
    BaseDir(String),
    /// The URI names this absolute path.
    Path(String),
}

/// A file's cached metadata.
#[derive(Debug, Clone)]
pub struct FileMetadata {
    pub path: String,
    pub mime_type: Option<String>,
    pub is_binary: bool,
    /// The last modification time, in nanoseconds since the Unix epoch.
    pub last_modified: u128,
}

/// The contents of a file as read: text, or bytes.
pub enum FileData {
    Text(String),
    Bytes(Vec<u8>),
}

/// An entry of a directory as read from the disk: its path, its file name,
/// and whether it is a directory itself.
pub struct DirEntry {
    pub path: String,
    pub name: String,
    pub is_dir: bool,
}

/// What the disk gave for a path that was asked for.
pub enum ReadOutcome {
    /// Nothing exists at the path.
    Missing,
    /// Reading the path's metadata or listing it failed with this error.
    Failed(ResourceError),
    /// A directory, with these entries.
    Directory(Vec<DirEntry>),
    /// A file, last modified at this time (nanoseconds since the Unix
    /// epoch), and its contents or the error of reading them.
    File { last_modified: u128, data: Result<FileData, ResourceError> },
}

/// Whether a MIME type, if one was guessed, is the one guessed from the
/// path.
pub open spec fn mime_of(m: Option<String>, path: Seq<char>) -> bool {
    match (m, mime_of_path(path)) {
        (Some(m), Some(m2)) => m@ == m2,
        (None, None) => true,
        _ => false,
    }
}

/// Whether `c` is the listing entry of a directory entry: its URI, its
/// MIME type (`inode/directory` for a directory) and its name, with `/`
/// after a directory's.
pub open spec fn lists_entry(c: ResourceContents, e: DirEntry) -> bool {
    &&& c.uri@ == file_uri(e.path@)
    &&& e.is_dir ==> (c.mime_type matches Some(m) && m@ == "inode/directory"@)
    &&& !e.is_dir ==> mime_of(c.mime_type, e.path@)
    &&& c.text matches Some(t) && t@ == (if e.is_dir { e.name@.push('/') } else { e.name@ })
    &&& c.blob is None
}

/// Whether `r` is a file's contents as the resource's single entry under
/// `uri`: text as it is, bytes in base64.
pub open spec fn serves_file(r: ReadResourceResult, uri: Seq<char>, path: Seq<char>, data: FileData) -> bool {
    &&& r.contents.len() == 1
    &&& r.contents@[0].uri@ == uri
    &&& mime_of(r.contents@[0].mime_type, path)
    &&& match data {
        FileData::Text(t) => r.contents@[0].text == Some(t) && r.contents@[0].blob is None,
        FileData::Bytes(b) => r.contents@[0].text is None
            && (r.contents@[0].blob matches Some(s) && s@ == base64(b@)),
    }
}

/// The path a read serves: the canonical one when it was found, else the
/// path as asked for (the base directory's).
pub open spec fn served_path(path: Seq<char>, containment: Option<Result<(String, String), ResourceError>>) -> Seq<char> {
    match containment {
        Some(Ok((cp, _))) => cp@,
        _ => path,
    }
}

/// Whether a path passed the check that it lies inside the base
/// directory: the base directory itself is not checked; otherwise both
/// canonical forms were found and the one lies under the other.
pub open spec fn read_allowed(containment: Option<Result<(String, String), ResourceError>>) -> bool {
    match containment {
        None => true,
        Some(Ok((cp, cb))) => path_has_prefix(cp@, cb@) || cp@ == cb@,
        Some(Err(_)) => false,
    }
}

/// A file system resource serving both text and binary files, with its
/// cache of file metadata, its subscriptions, and whether files are
/// watched for changes.
pub struct FileSystem<C> {
    base_dir: String,
    cache: Registry<String, FileMetadata>,
    resource_manager: ResourceManager<C>,
    file_watching_enabled: bool,
}

impl<C> FileSystem<C> {
    /// The base directory.
    pub closed spec fn base(&self) -> Seq<char> {
        self.base_dir@
    }

    /// The last modification time cached for each URI read or checked.
    pub closed spec fn modified(&self) -> Map<Seq<char>, u128> {
        self.cache.map().map_values(|m: FileMetadata| m.last_modified)
    }

    /// The subscribers of each URI.
    pub closed spec fn subscribers(&self) -> Map<Seq<char>, Seq<ClientId>> {
        self.resource_manager.subscribers()
    }

    /// The callback registered to notify subscribers, if any.
    pub closed spec fn callback(&self) -> Option<C> {
        self.resource_manager.callback()
    }

    /// Whether files are watched for changes.
    pub closed spec fn watching(&self) -> bool {
        self.file_watching_enabled
    }

    pub closed spec fn wf(&self) -> bool {
        self.cache.wf() && self.resource_manager.wf()
    }

    /// Every subscribed resource has a subscriber, and none twice.
    pub proof fn lemma_valid(&self)
        requires
            self.wf(),
        ensures
            crate::resources::subscribers_valid(self.subscribers()),
    {
        self.resource_manager.lemma_valid();
    }

    /// A file system resource over `base_dir`, not watching yet.
    pub fn new(base_dir: &str) -> (fs: Self)
        ensures
            fs.wf(),
            fs.base() == base_dir@,
            fs.modified() == Map::<Seq<char>, u128>::empty(),
            fs.subscribers() == Map::<Seq<char>, Seq<ClientId>>::empty(),
            !fs.watching(),
    {
        let fs = FileSystem {
            base_dir: base_dir.to_owned(),
            cache: Registry::new(),
            resource_manager: ResourceManager::new(),
            file_watching_enabled: false,
        };
        assert(fs.modified() =~= Map::<Seq<char>, u128>::empty());
        fs
    }

    /// The base directory.
    pub fn base_dir(&self) -> (b: &String)
        ensures
            b@ == self.base(),
    {
        &self.base_dir
    }

    /// The resource's definition.
    pub fn def() -> (r: Resource)
        ensures
            r.name@ == "filesystem"@,
            r.description matches Some(d) && d@ == "Access files from the server's filesystem"@,
            r.uri@ == "file:///"@,
            r.mime_type is None,
    {
        Resource {
            name: "filesystem".to_owned(),
            description: Some("Access files from the server's filesystem".to_owned()),
            uri: "file:///".to_owned(),
            mime_type: None,
        }
    }

    /// The template of the URIs it serves.
    pub fn template() -> (t: Option<ResourceTemplate>)
        ensures
            t matches Some(t) && t.name@ == "filesystem"@ && t.uri_template@ == "file:///{path}"@
                && (t.description matches Some(d) && d@ == "Access files from the server's filesystem"@)
                && t.mime_type is None,
    {
        Some(ResourceTemplate {
            name: "filesystem".to_owned(),
            description: Some("Access files from the server's filesystem".to_owned()),
            uri_template: "file:///{path}".to_owned(),
            mime_type: None,
        })
    }

    /// It supports subscriptions.
    pub fn supports_subscription() -> (b: bool)
        ensures
            b,
    {
        true
    }

    /// The resource manager of its subscriptions.
    pub fn get_resource_manager(&self) -> (m: &ResourceManager<C>)
        ensures
            m.subscribers() == self.subscribers(),
            m.callback() == self.callback(),
            self.wf() ==> m.wf(),
    {
        &self.resource_manager
    }

    /// Registers the callback that notifies subscribers.
    pub fn set_notification_callback(&mut self, callback: C)
        requires
            old(self).wf(),
        ensures
            final(self).wf(),
            final(self).callback() == Some(callback),
            final(self).subscribers() == old(self).subscribers(),
            final(self).watching() == old(self).watching(),
            final(self).modified() == old(self).modified(),
            final(self).base() == old(self).base(),
    {
        self.resource_manager.set_notification_callback(callback);
    }

    /// Enables or disables watching files for changes.
    pub fn set_file_watching(&mut self, enabled: bool)
        ensures
            final(self).watching() == enabled,
            final(self).subscribers() == old(self).subscribers(),
            final(self).modified() == old(self).modified(),
            final(self).base() == old(self).base(),
            final(self).wf() == old(self).wf(),
    {
        self.file_watching_enabled = enabled;
    }

    /// Whether files are watched for changes.
    pub fn file_watching(&self) -> (b: bool)
        ensures
            b == self.watching(),
    {
        self.file_watching_enabled
    }

    /// A file's MIME type, by its extension.
    pub fn guess_mime_type(path: &str) -> (r: Option<String>)
        ensures
            match (r, mime_of_path(path@)) {
                (Some(m), Some(m2)) => m@ == m2,
                (None, None) => true,
                _ => false,
            },
    {
        let ext = match extension_of(path) {
            Some(e) => e,
            None => return None,
        };
        let e = ext.as_str();
        if str_eq(e, "txt") {
            Some("text/plain".to_owned())
        } else if str_eq(e, "md") {
            Some("text/markdown".to_owned())
        } else if str_eq(e, "html") {
            Some("text/html".to_owned())
        } else if str_eq(e, "css") {
            Some("text/css".to_owned())
        } else if str_eq(e, "js") {
            Some("application/javascript".to_owned())
        } else if str_eq(e, "json") {
            Some("application/json".to_owned())
        } else if str_eq(e, "xml") {
            Some("application/xml".to_owned())
        } else if str_eq(e, "pdf") {
            Some("application/pdf".to_owned())
        } else if str_eq(e, "png") {
            Some("image/png".to_owned())
        } else if str_eq(e, "jpg") || str_eq(e, "jpeg") {
            Some("image/jpeg".to_owned())
        } else if str_eq(e, "gif") {
            Some("image/gif".to_owned())
        } else if str_eq(e, "svg") {
            Some("image/svg+xml".to_owned())
        } else {
            None
        }
    }

    /// Whether a file of this MIME type is treated as binary.
    pub fn is_binary(mime_type: &str) -> (b: bool)
        ensures
            b == binary_mime(mime_type@),
    {
        let mc = to_chars(mime_type);
        let text: Vec<char> = vec!['t', 'e', 'x', 't', '/'];
        assert(mc@.subrange(0, mc.len() as int) == mc@);
        assert(text@ == "text/"@) by {
            reveal_strlit("text/");
        }
        !prefix_at(&mc, 0, &text) && !contains_str(mime_type, "json") && !contains_str(mime_type, "xml")
            && !contains_str(mime_type, "javascript")
    }

    /// Whether a file at this path is read as base64 bytes.
    pub fn reads_as_binary(path: &str) -> (b: bool)
        ensures
            b == reads_binary(path@),
    {
        match Self::guess_mime_type(path) {
            Some(m) => Self::is_binary(m.as_str()),
            None => false,
        }
    }

    /// The URI of a path.
    pub fn path_to_uri(path: &str) -> (u: String)
        ensures
            u@ == file_uri(path@),
    {
        let mut out: Vec<char> = Vec::new();
        append_str(&mut out, "file://");
        append_str(&mut out, path);
        from_chars(&out)
    }

    /// The path a URI names: the base directory for an empty path or `/`,
    /// else the URI's path made absolute against the base directory. Only
    /// `file` URIs are served.
    pub fn uri_target(&self, uri: &str) -> (r: Result<UriTarget, ResourceError>)
        ensures
            match url_parse(uri@) {
                Err(m) => r matches Err(ResourceError::Custom(e)) && e@ == "Invalid URI: "@ + m,
                Ok((scheme, path)) => if scheme != "file"@ {
                    r matches Err(ResourceError::Custom(e)) && e@ == "Unsupported URI scheme: "@ + scheme
                } else if path.len() == 0 || path == "/"@ {
                    r matches Ok(UriTarget::BaseDir(b)) && b@ == self.base()
                } else {
                    r matches Ok(UriTarget::Path(p)) && p@ == joined(self.base(), path)
                },
            },
    {
        match parse_url(uri) {
            Err(m) => {
                let mut out: Vec<char> = Vec::new();
                append_str(&mut out, "Invalid URI: ");
                append_str(&mut out, m.as_str());
                Err(ResourceError::Custom(from_chars(&out)))
            },
            Ok((scheme, path)) => {
                if !str_eq(scheme.as_str(), "file") {
                    let mut out: Vec<char> = Vec::new();
                    append_str(&mut out, "Unsupported URI scheme: ");
                    append_str(&mut out, scheme.as_str());
                    return Err(ResourceError::Custom(from_chars(&out)));
                }
                let pc = to_chars(path.as_str());
                if pc.len() == 0 || str_eq(path.as_str(), "/") {
                    return Ok(UriTarget::BaseDir(self.base_dir.clone()));
                }
                Ok(UriTarget::Path(join_path(self.base_dir.as_str(), path.as_str())))
            },
        }
    }

    /// Checks that a resolved path lies inside the base directory (both
    /// canonical); `display` is the path as asked for, for the message.
    pub fn check_inside(canonical_path: &str, canonical_base: &str, display: &str) -> (r: Result<(), ResourceError>)
        ensures
            path_has_prefix(canonical_path@, canonical_base@) || canonical_path@ == canonical_base@
                ==> r is Ok,
            !(path_has_prefix(canonical_path@, canonical_base@) || canonical_path@ == canonical_base@)
                ==> (r matches Err(ResourceError::Custom(m))
                    && m@ == "Access denied: "@ + display@ + " is outside the base directory"@),
    {
        if !path_starts_with(canonical_path, canonical_base) && !str_eq(canonical_path, canonical_base) {
            let mut out: Vec<char> = Vec::new();
            append_str(&mut out, "Access denied: ");
            append_str(&mut out, display);
            append_str(&mut out, " is outside the base directory");
            return Err(ResourceError::Custom(from_chars(&out)));
        }
        Ok(())
    }

    /// The path a URI's target resolves to, from what the disk said of it:
    /// the base directory as it is; another path only when it exists, its
    /// canonical form was found, and that lies inside the canonical base
    /// directory, in which case the canonical path.
    pub fn resolved_path(
        target: UriTarget,
        exists: bool,
        canonical: Result<(String, String), ResourceError>,
    ) -> (r: Result<String, ResourceError>)
        ensures
            match target {
                UriTarget::BaseDir(b) => r == Ok::<String, ResourceError>(b),
                UriTarget::Path(p) => if !exists {
                    r matches Err(ResourceError::NotFound(m)) && m@ == "File not found: "@ + p@
                } else {
                    match canonical {
                        Err(e) => r == Err::<String, ResourceError>(e),
                        Ok((cp, cb)) => if path_has_prefix(cp@, cb@) || cp@ == cb@ {
                            r == Ok::<String, ResourceError>(cp)
                        } else {
                            r matches Err(ResourceError::Custom(m))
                                && m@ == "Access denied: "@ + p@ + " is outside the base directory"@
                        },
                    }
                },
            },
    {
        match target {
            UriTarget::BaseDir(b) => Ok(b),
            UriTarget::Path(p) => {
                if !exists {
                    return Err(Self::not_found(p.as_str()));
                }
                match canonical {
                    Err(e) => Err(e),
                    Ok((cp, cb)) => match Self::check_inside(cp.as_str(), cb.as_str(), p.as_str()) {
                        Ok(()) => Ok(cp),
                        Err(e) => Err(e),
                    },
                }
            },
        }
    }

    /// The error for a path that does not exist.
    pub fn not_found(display: &str) -> (e: ResourceError)
        ensures
            e matches ResourceError::NotFound(m) && m@ == "File not found: "@ + display@,
    {
        let mut out: Vec<char> = Vec::new();
        append_str(&mut out, "File not found: ");
        append_str(&mut out, display);
        ResourceError::NotFound(from_chars(&out))
    }

    /// The entry of a directory listing: the entry's URI, its MIME type
    /// (`inode/directory` for a directory) and its name, with `/` after a
    /// directory's.
    pub fn dir_entry(entry_path: &str, entry_name: &str, is_dir: bool) -> (c: ResourceContents)
        ensures
            c.uri@ == file_uri(entry_path@),
            is_dir ==> (c.mime_type matches Some(m) && m@ == "inode/directory"@),
            !is_dir ==> match (c.mime_type, mime_of_path(entry_path@)) {
                (Some(m), Some(m2)) => m@ == m2,
                (None, None) => true,
                _ => false,
            },
            c.text matches Some(t) && t@ == (if is_dir { entry_name@.push('/') } else { entry_name@ }),
            c.blob is None,
    {
        let mime_type = if is_dir { Some("inode/directory".to_owned()) } else { Self::guess_mime_type(entry_path) };
        let mut name: Vec<char> = Vec::new();
        append_str(&mut name, entry_name);
        if is_dir {
            name.push('/');
        }
        ResourceContents {
            uri: Self::path_to_uri(entry_path),
            mime_type,
            text: Some(from_chars(&name)),
            blob: None,
        }
    }

    /// A file's contents as the resource's single entry: text as it is,
    /// bytes in base64.
    pub fn file_result(uri: String, path: &str, data: FileData) -> (r: ReadResourceResult)
        ensures
            r.contents.len() == 1,
            r.contents@[0].uri == uri,
            match (r.contents@[0].mime_type, mime_of_path(path@)) {
                (Some(m), Some(m2)) => m@ == m2,
                (None, None) => true,
                _ => false,
            },
            match data {
                FileData::Text(t) => r.contents@[0].text == Some(t) && r.contents@[0].blob is None,
                FileData::Bytes(b) => r.contents@[0].text is None
                    && (r.contents@[0].blob matches Some(s) && s@ == base64(b@)),
            },
    {
        let mime_type = Self::guess_mime_type(path);
        let entry = match data {
            FileData::Text(t) => ResourceContents { uri, mime_type, text: Some(t), blob: None },
            FileData::Bytes(b) => ResourceContents { uri, mime_type, text: None, blob: Some(base64_encode(&b)) },
        };
        ReadResourceResult { contents: vec![entry] }
    }

    /// Records a file's metadata after reading or checking it, and tells
    /// whether it changed: whether a time was cached for the URI and the
    /// new one is later. Only files are cached.
    pub fn record_metadata(&mut self, uri: &str, path: &str, is_file: bool, last_modified: u128) -> (changed: bool)
        requires
            old(self).wf(),
        ensures
            final(self).wf(),
            changed == (old(self).modified().contains_key(uri@) && last_modified > old(self).modified()[uri@]),
            is_file ==> final(self).modified() == old(self).modified().insert(uri@, last_modified),
            !is_file ==> final(self).modified() == old(self).modified(),
            final(self).subscribers() == old(self).subscribers(),
            final(self).watching() == old(self).watching(),
            final(self).base() == old(self).base(),
    {
        let key = uri.to_owned();
        let changed = match self.cache.get(&key) {
            Some(m) => last_modified > m.last_modified,
            None => false,
        };
        if is_file {
            let ghost old_mod = self.modified();
            let mime_type = Self::guess_mime_type(path);
            let is_binary = Self::reads_as_binary(path);
            let meta = FileMetadata { path: path.to_owned(), mime_type, is_binary, last_modified };
            let _ = self.cache.insert(key, meta);
            assert(self.modified() =~= old_mod.insert(uri@, last_modified));
        }
        changed
    }

    /// Reads a resource from what the disk gave for its path: a missing
    /// path is not found; a path that could not be resolved, or lies
    /// outside the base directory, is refused; a directory is listed entry
    /// by entry; a file's metadata is recorded and its contents served.
    /// `containment` holds the canonical path and base directory, or the
    /// error of finding them, for every path but the base directory's;
    /// messages name `path`, and a file is served from its canonical path.
    pub fn read_result(
        &mut self,
        uri: String,
        path: &str,
        containment: Option<Result<(String, String), ResourceError>>,
        outcome: ReadOutcome,
    ) -> (r: Result<ReadResourceResult, ResourceError>)
        requires
            old(self).wf(),
        ensures
            final(self).wf(),
            final(self).subscribers() == old(self).subscribers(),
            final(self).watching() == old(self).watching(),
            final(self).base() == old(self).base(),
            r is Ok ==> !(outcome is Missing) && read_allowed(containment),
            outcome is Missing ==> (r matches Err(ResourceError::NotFound(m))
                && m@ == "File not found: "@ + path@),
            !(outcome is Missing) ==> match containment {
                Some(Err(e)) => r == Err::<ReadResourceResult, ResourceError>(e),
                Some(Ok((cp, cb))) => !read_allowed(containment) ==> (r matches Err(ResourceError::Custom(m))
                    && m@ == "Access denied: "@ + path@ + " is outside the base directory"@),
                None => true,
            },
            outcome is Missing || !read_allowed(containment) ==> final(self).modified() == old(self).modified(),
            !(outcome is Missing) && read_allowed(containment) ==> match outcome {
                ReadOutcome::Failed(e) => r == Err::<ReadResourceResult, ResourceError>(e),
                ReadOutcome::Directory(es) => r matches Ok(res) && res.contents.len() == es.len()
                    && forall|i: int| 0 <= i < es.len() ==> #[trigger] lists_entry(res.contents@[i], es@[i]),
                ReadOutcome::File { last_modified, data } =>
                    final(self).modified() == old(self).modified().insert(uri@, last_modified)
                    && match data {
                        Err(e) => r == Err::<ReadResourceResult, ResourceError>(e),
                        Ok(d) => r matches Ok(res) && serves_file(res, uri@, served_path(path@, containment), d),
                    },
                ReadOutcome::Missing => true,
            },
            !(outcome is Missing) && read_allowed(containment) && !(outcome is File)
                ==> final(self).modified() == old(self).modified(),
    {
        match outcome {
            ReadOutcome::Missing => {
                return Err(Self::not_found(path));
            },
            _ => {},
        }
        let served = match containment {
            Some(Err(e)) => {
                return Err(e);
            },
            Some(Ok((cp, cb))) => {
                match Self::check_inside(cp.as_str(), cb.as_str(), path) {
                    Err(e) => {
                        return Err(e);
                    },
                    Ok(()) => {},
                }
                cp
            },
            None => path.to_owned(),
        };
        match outcome {
            ReadOutcome::Missing => Err(Self::not_found(path)),
            ReadOutcome::Failed(e) => Err(e),
            ReadOutcome::Directory(es) => {
                let mut contents: Vec<ResourceContents> = Vec::new();
                let mut i: usize = 0;
                while i < es.len()
                    invariant
                        i <= es.len(),
                        contents.len() == i,
                        forall|j: int| 0 <= j < i ==> #[trigger] lists_entry(contents@[j], es@[j]),
                    decreases es.len() - i,
                {
                    let e = &es[i];
                    let c = Self::dir_entry(e.path.as_str(), e.name.as_str(), e.is_dir);
                    contents.push(c);
                    i = i + 1;
                }
                Ok(ReadResourceResult { contents })
            },
            ReadOutcome::File { last_modified, data } => {
                let _ = self.record_metadata(uri.as_str(), served.as_str(), true, last_modified);
                match data {
                    Err(e) => Err(e),
                    Ok(d) => Ok(Self::file_result(uri, served.as_str(), d)),
                }
            },
        }
    }

    /// Subscribes a client to a resolved resource: a missing one is an
    /// error; otherwise files are watched from then on, and the file's
    /// metadata is recorded, so that a later change to it is seen.
    pub fn subscribe(
        &mut self,
        uri: &str,
        client_id: ClientId,
        exists: bool,
        path: &str,
        is_file: bool,
        last_modified: u128,
    ) -> (r: Result<(), ResourceError>)
        requires
            old(self).wf(),
        ensures
            final(self).wf(),
            final(self).base() == old(self).base(),
            !exists ==> (r matches Err(ResourceError::NotFound(m))
                && m@ == "Cannot subscribe to non-existent resource: "@ + uri@)
                && final(self).subscribers() == old(self).subscribers()
                && final(self).watching() == old(self).watching()
                && final(self).modified() == old(self).modified(),
            exists ==> r is Ok && final(self).watching()
                && final(self).subscribers()
                    == crate::resources::subscribers_after_add(old(self).subscribers(), uri@, client_id),
            exists && is_file ==> final(self).modified() == old(self).modified().insert(uri@, last_modified),
            exists && !is_file ==> final(self).modified() == old(self).modified(),
    {
        if !exists {
            let mut out: Vec<char> = Vec::new();
            append_str(&mut out, "Cannot subscribe to non-existent resource: ");
            append_str(&mut out, uri);
            return Err(ResourceError::NotFound(from_chars(&out)));
        }
        self.file_watching_enabled = true;
        let _ = self.record_metadata(uri, path, is_file, last_modified);
        self.resource_manager.add_subscriber(uri, client_id);
        Ok(())
    }

    /// Unsubscribes from a resource. The file system keeps one
    /// subscription per resource, whatever client asked for it, so the
    /// resource is left without subscribers; watching stops when no
    /// resource has subscribers left.
    pub fn unsubscribe(&mut self, uri: &str, client_id: ClientId) -> (r: Result<(), ResourceError>)
        requires
            old(self).wf(),
        ensures
            final(self).wf(),
            r is Ok,
            final(self).modified() == old(self).modified(),
            final(self).base() == old(self).base(),
            final(self).subscribers() == old(self).subscribers().remove(uri@),
            final(self).subscribers() == Map::<Seq<char>, Seq<ClientId>>::empty() ==> !final(self).watching(),
            final(self).subscribers() != Map::<Seq<char>, Seq<ClientId>>::empty()
                ==> final(self).watching() == old(self).watching(),
    {
        self.resource_manager.remove_all_subscribers(uri);
        let uris = self.resource_manager.subscribed_uris();
        if uris.len() == 0 {
            assert(self.subscribers() =~= Map::<Seq<char>, Seq<ClientId>>::empty());
            self.file_watching_enabled = false;
        } else {
            proof {
                assert(self.subscribers().contains_key(uris@[0]@));
                assert(!Map::<Seq<char>, Seq<ClientId>>::empty().contains_key(uris@[0]@));
            }
        }
        Ok(())
    }

    /// The URIs that have subscribers, for the watcher to check.
    pub fn subscribed_uris(&self) -> (r: Vec<String>)
        requires
            self.wf(),
        ensures
            forall|u: Seq<char>| self.subscribers().contains_key(u)
                <==> exists|i: int| 0 <= i < r.len() && (#[trigger] r@[i])@ == u,
    {
        self.resource_manager.subscribed_uris()
    }

    /// What notifying the subscribers of a changed URI takes.
    pub fn notify_resource_updated(&self, uri: &str) -> (r: Result<NotificationPlan, ResourceError>)
        requires
            self.wf(),
        ensures
            !self.subscribers().contains_key(uri@) ==> (r matches Ok(p) && p.uri@ == uri@
                && p.clients.len() == 0),
            self.subscribers().contains_key(uri@) && self.callback() is Some ==> (r matches Ok(p)
                && p.uri@ == uri@ && p.clients@ == self.subscribers()[uri@]),
            self.subscribers().contains_key(uri@) && self.callback() is None ==> (r matches Err(
                ResourceError::Custom(m)) && m@ == "No notification callback registered"@),
    {
        self.resource_manager.notify_resource_updated(uri)
    }
}

/// `path` made absolute against `base`.
pub(crate) fn join_path(base: &str, path: &str) -> (r: String)
    ensures
        r@ == joined(base@, path@),
{
    let pc = to_chars(path);
    if pc.len() > 0 && pc[0] == '/' {
        return from_chars(&pc);
    }
    let mut out = to_chars(base);
    if out.len() > 0 && out[out.len() - 1] == '/' {
        crate::text::append_chars(&mut out, &pc);
    } else if out.len() == 0 {
        crate::text::append_chars(&mut out, &pc);
    } else {
        out.push('/');
        crate::text::append_chars(&mut out, &pc);
    }
    from_chars(&out)
}

} // verus!
