//! Uploads and embeddings: where an uploaded file or archive goes, the
//! folder an archive's entries share, the answers of the upload endpoint,
//! and how the inputs of an embedding request are batched.
use vstd::prelude::*;
use crate::cognition::api_schema::ModelEmbed;
use crate::json::{json_quote, json_string_literal, JsonValue};
use crate::resources::filesystem::{extension_of, join_path, joined, path_extension};
use crate::cognition::tool_schema::names;
use crate::text::{append_str, ends_with, from_chars, has_suffix, join, str_eq, to_chars};

verus! {

/// The largest upload, in bytes: 100 MiB.
pub const UPLOAD_TOTAL_LIMIT: usize = 104857600;
/// The largest upload held in memory, in bytes: 50 MiB.
pub const UPLOAD_MEMORY_LIMIT: usize = 52428800;

/// The upload limits a client is told.
#[derive(Debug, Clone, Copy, PartialEq, Eq)]
pub struct UploadConfig {
    /// Maximum total file size in bytes.
    pub max_file_size: usize,
    /// Maximum memory buffer size in bytes.
    pub max_memory_buffer: usize,
}

impl Default for UploadConfig {
    fn default() -> (c: Self)
        ensures
            c.max_file_size == 100 * 1024 * 1024,
            c.max_memory_buffer == 50 * 1024 * 1024,
    {
        UploadConfig { max_file_size: UPLOAD_TOTAL_LIMIT, max_memory_buffer: UPLOAD_MEMORY_LIMIT }
    }
}

/// The answer to a successful upload.
#[derive(Debug, Clone)]
pub struct Uploaded {
    /// What was done.
    pub message: String,
    /// Where the files went, relative to the store.
    pub paths: Vec<String>,
    /// The size of the upload in bytes.
    pub size: usize,
}

/// The path without its extension, as `Path::with_extension("")` gives it.
pub uninterp spec fn path_without_extension(path: Seq<char>) -> Seq<char>;

/// `Path::new(path).with_extension("")`; named by `path_without_extension`.
#[verifier::external_body]
fn without_extension(path: &str) -> (r: String)
    ensures
        r@ == path_without_extension(path@),
{
    std::path::Path::new(path).with_extension("").to_string_lossy().to_string()
}

/// The folder an upload goes to: a path with the `zip` extension names the
/// folder without it, any other path names itself.
pub fn target_folder(path: &str) -> (r: String)
    ensures
        path_extension(path@) == Some("zip"@) ==> r@ == path_without_extension(path@),
        path_extension(path@) != Some("zip"@) ==> r@ == path@,
{
    match extension_of(path) {
        Some(e) => if str_eq(e.as_str(), "zip") {
            without_extension(path)
        } else {
            path.to_owned()
        },
        None => path.to_owned(),
    }
}

/// Whether an uploaded file is a zip archive, by its name.
pub fn is_zip_upload(file_name: &Option<String>) -> (b: bool)
    ensures
        b == match *file_name { Some(n) => has_suffix(n@, ".zip"@), None => false },
{
    match file_name {
        Some(n) => {
            let cs = to_chars(n.as_str());
            ends_with(&cs, ".zip")
        },
        None => false,
    }
}

/// Whether every entry with a first path component has `c` as that
/// component, and some entry has one.
pub open spec fn shared_top(firsts: Seq<Option<String>>, c: Seq<char>) -> bool {
    &&& exists|i: int| 0 <= i < firsts.len() && (#[trigger] firsts[i]) is Some
    &&& forall|i: int| 0 <= i < firsts.len() && (#[trigger] firsts[i]) is Some ==> firsts[i]->0@ == c
}

/// The top-level folder all of an archive's entries are in, given each
/// entry's first path component: none when two entries differ there or no
/// entry has one.
pub fn common_top_folder(firsts: &Vec<Option<String>>) -> (r: Option<String>)
    ensures
        match r {
            Some(c) => shared_top(firsts@, c@),
            None => forall|c: Seq<char>| !shared_top(firsts@, c),
        },
{
    let mut common: Option<String> = None;
    let mut i: usize = 0;
    while i < firsts.len()
        invariant
            i <= firsts.len(),
            match common {
                Some(c) => (exists|j: int| 0 <= j < i && (#[trigger] firsts@[j]) is Some)
                    && forall|j: int| 0 <= j < i && (#[trigger] firsts@[j]) is Some ==> firsts@[j]->0@ == c@,
                None => forall|j: int| 0 <= j < i ==> (#[trigger] firsts@[j]) is None,
            },
        decreases firsts.len() - i,
    {
        match &firsts[i] {
            Some(f) => match &common {
                Some(c) => {
                    if !str_eq(c.as_str(), f.as_str()) {
                        proof {
                            assert forall|c2: Seq<char>| !shared_top(firsts@, c2) by {
                                let w = choose|j: int| 0 <= j < i && (#[trigger] firsts@[j]) is Some;
                                if shared_top(firsts@, c2) {
                                    assert(firsts@[w]->0@ == c2);
                                    assert(firsts@[i as int]->0@ == c2);
                                }
                            }
                        }
                        return None;
                    }
                },
                None => {
                    common = Some(f.clone());
                },
            },
            None => {},
        }
        i = i + 1;
    }
    proof {
        if common is None {
            assert forall|c2: Seq<char>| !shared_top(firsts@, c2) by {}
        }
    }
    common
}

/// Where an archive entry is stored, as path components relative to the
/// store: under the upload's target folder, without the top folder all
/// entries share, if there is one.
pub open spec fn entry_path(entry: Seq<Seq<char>>, top: Option<Seq<char>>, target: Seq<Seq<char>>) -> Seq<Seq<char>> {
    let stripped = match top {
        Some(t) => if entry.len() > 0 && entry[0] == t { entry.drop_first() } else { entry },
        None => entry,
    };
    target + stripped
}

/// The path an extracted archive entry is listed under, as components
/// relative to the store; a directory entry is created but not listed.
pub fn extracted_entry(entry: &Vec<String>, is_dir: bool, top: &Option<String>, target: &Vec<String>)
    -> (r: Option<Vec<String>>)
    ensures
        is_dir ==> r is None,
        !is_dir ==> (r matches Some(p) && names(p@) == entry_path(
            names(entry@),
            match *top { Some(t) => Some(t@), None => None },
            names(target@),
        )),
{
    if is_dir {
        return None;
    }
    let skip: usize = match top {
        Some(t) => if entry.len() > 0 && str_eq(entry[0].as_str(), t.as_str()) { 1 } else { 0 },
        None => 0,
    };
    let mut out: Vec<String> = Vec::new();
    let mut i: usize = 0;
    while i < target.len()
        invariant
            i <= target.len(),
            names(out@) == names(target@).subrange(0, i as int),
        decreases target.len() - i,
    {
        let ghost prev = out@;
        let x = target[i].clone();
        out.push(x);
        assert(out@ == prev.push(x));
        assert(names(out@) =~= names(prev).push(target@[i as int]@));
        assert(names(out@) =~= names(target@).subrange(0, i + 1));
        i = i + 1;
    }
    assert(names(target@).subrange(0, target.len() as int) =~= names(target@));
    let mut j: usize = skip;
    while j < entry.len()
        invariant
            skip <= j <= entry.len(),
            names(out@) == names(target@) + names(entry@).subrange(skip as int, j as int),
        decreases entry.len() - j,
    {
        let ghost prev = out@;
        let x = entry[j].clone();
        out.push(x);
        assert(out@ == prev.push(x));
        assert(names(out@) =~= names(prev).push(entry@[j as int]@));
        assert(names(out@) =~= names(target@) + names(entry@).subrange(skip as int, j + 1));
        j = j + 1;
    }
    proof {
        let e = names(entry@);
        if skip == 1 {
            assert(e.subrange(1, e.len() as int) =~= e.drop_first());
            assert(e[0] == entry@[0]@);
        } else {
            assert(e.subrange(0, e.len() as int) =~= e);
        }
    }
    Some(out)
}

/// An entry of a zip archive: its path's components, and whether it is a
/// directory.
pub struct ArchiveEntry {
    pub components: Vec<String>,
    pub is_dir: bool,
}

/// Whether every entry with a path component has `c` as its first, and
/// some entry has one.
pub open spec fn top_of_all(entries: Seq<ArchiveEntry>, c: Seq<char>) -> bool {
    &&& exists|i: int| 0 <= i < entries.len() && (#[trigger] entries[i]).components.len() > 0
    &&& forall|i: int| 0 <= i < entries.len() && (#[trigger] entries[i]).components.len() > 0
        ==> entries[i].components@[0]@ == c
}

/// The top-level folder all of an archive's entries are in, if there is
/// one.
pub open spec fn archive_top(entries: Seq<ArchiveEntry>) -> Option<Seq<char>> {
    if exists|c: Seq<char>| top_of_all(entries, c) {
        Some(choose|c: Seq<char>| top_of_all(entries, c))
    } else {
        None
    }
}

/// The files an archive's entries are listed as, in order, as path
/// components relative to the store: directories are left out.
pub open spec fn listed_files(entries: Seq<ArchiveEntry>, top: Option<Seq<char>>, target: Seq<Seq<char>>)
    -> Seq<Seq<Seq<char>>>
    decreases entries.len(),
{
    if entries.len() == 0 {
        Seq::empty()
    } else {
        let rest = listed_files(entries.drop_last(), top, target);
        let e = entries.last();
        if e.is_dir {
            rest
        } else {
            rest.push(entry_path(names(e.components@), top, target))
        }
    }
}

/// Two folders that all entries share are the same.
proof fn lemma_top_unique(entries: Seq<ArchiveEntry>, a: Seq<char>, b: Seq<char>)
    requires
        top_of_all(entries, a),
        top_of_all(entries, b),
    ensures
        a == b,
{
    let i = choose|i: int| 0 <= i < entries.len() && (#[trigger] entries[i]).components.len() > 0;
    assert(entries[i].components@[0]@ == a);
}

/// The files an extracted archive is listed as: each file entry under the
/// upload's target folder, without the top folder all entries share.
pub fn extracted_files(entries: &Vec<ArchiveEntry>, target: &Vec<String>) -> (r: Vec<Vec<String>>)
    ensures
        r.len() == listed_files(entries@, archive_top(entries@), names(target@)).len(),
        forall|k: int| 0 <= k < r.len() ==> names(#[trigger] r@[k]@)
            == listed_files(entries@, archive_top(entries@), names(target@))[k],
{
    let mut firsts: Vec<Option<String>> = Vec::new();
    let mut i: usize = 0;
    while i < entries.len()
        invariant
            i <= entries.len(),
            firsts.len() == i,
            forall|j: int| 0 <= j < i ==> ((#[trigger] firsts@[j]) is Some <==> entries@[j].components.len() > 0),
            forall|j: int| 0 <= j < i && (#[trigger] firsts@[j]) is Some
                ==> firsts@[j]->0@ == entries@[j].components@[0]@,
        decreases entries.len() - i,
    {
        if entries[i].components.len() > 0 {
            firsts.push(Some(entries[i].components[0].clone()));
        } else {
            firsts.push(None);
        }
        i = i + 1;
    }
    let top = common_top_folder(&firsts);
    proof {
        assert forall|c: Seq<char>| shared_top(firsts@, c) <==> top_of_all(entries@, c) by {
            if shared_top(firsts@, c) {
                let w = choose|i: int| 0 <= i < firsts.len() && (#[trigger] firsts@[i]) is Some;
                assert(entries@[w].components.len() > 0);
                assert forall|i: int| 0 <= i < entries.len() && (#[trigger] entries@[i]).components.len() > 0
                    implies entries@[i].components@[0]@ == c by {
                    assert(firsts@[i] is Some);
                }
            }
            if top_of_all(entries@, c) {
                let w = choose|i: int| 0 <= i < entries.len() && (#[trigger] entries@[i]).components.len() > 0;
                assert(firsts@[w] is Some);
                assert forall|i: int| 0 <= i < firsts.len() && (#[trigger] firsts@[i]) is Some
                    implies firsts@[i]->0@ == c by {
                    assert(entries@[i].components.len() > 0);
                }
            }
        }
        if top is Some {
            assert(top_of_all(entries@, top->0@));
            lemma_top_unique(entries@, top->0@, choose|c2: Seq<char>| top_of_all(entries@, c2));
        }
    }
    let ghost top_v: Option<Seq<char>> = if top is Some { Some(top->0@) } else { None };
    assert(top_v == archive_top(entries@));
    let mut out: Vec<Vec<String>> = Vec::new();
    let mut i: usize = 0;
    while i < entries.len()
        invariant
            i <= entries.len(),
            top_v == (if top is Some { Some(top->0@) } else { None::<Seq<char>> }),
            out.len() == listed_files(entries@.take(i as int), top_v, names(target@)).len(),
            forall|k: int| 0 <= k < out.len() ==> names(#[trigger] out@[k]@)
                == listed_files(entries@.take(i as int), top_v, names(target@))[k],
        decreases entries.len() - i,
    {
        let ghost before = out@;
        assert(entries@.take(i + 1).drop_last() =~= entries@.take(i as int));
        assert(entries@.take(i + 1).last() == entries@[i as int]);
        match extracted_entry(&entries[i].components, entries[i].is_dir, &top, target) {
            Some(p) => {
                out.push(p);
                assert forall|k: int| 0 <= k < out.len() implies names(#[trigger] out@[k]@)
                    == listed_files(entries@.take(i + 1), top_v, names(target@))[k] by {
                    if k < before.len() {
                        assert(out@[k] == before[k]);
                    }
                }
            },
            None => {},
        }
        i = i + 1;
    }
    assert(entries@.take(entries.len() as int) =~= entries@);
    out
}

/// Where a single uploaded file is stored, relative to the store: in the
/// target folder under its own name (the folder itself when the upload
/// has no name).
pub fn upload_destination(target: &str, file_name: &Option<String>) -> (r: String)
    ensures
        match *file_name {
            Some(n) => r@ == joined(target@, n@),
            None => r@ == target@,
        },
{
    match file_name {
        Some(n) => join_path(target, n.as_str()),
        None => target.to_owned(),
    }
}

/// A path given as components, with `/` between them.
pub fn components_path(components: &Vec<String>) -> (s: String)
    ensures
        s@ == join(names(components@), "/"@),
{
    let mut out: Vec<char> = Vec::new();
    let ghost parts = names(components@);
    let mut i: usize = 0;
    while i < components.len()
        invariant
            i <= components.len(),
            parts == names(components@),
            out@ == join(parts.subrange(0, i as int), "/"@),
        decreases components.len() - i,
    {
        if i > 0 {
            append_str(&mut out, "/");
        }
        append_str(&mut out, components[i].as_str());
        proof {
            let s1 = parts.subrange(0, i + 1);
            assert(s1.drop_last() =~= parts.subrange(0, i as int));
            assert(s1.last() == components@[i as int]@);
            if i == 0 {
                assert(join(parts.subrange(0, 0), "/"@) =~= Seq::<char>::empty());
            }
            assert(out@ =~= join(s1, "/"@));
        }
        i = i + 1;
    }
    assert(parts.subrange(0, components.len() as int) =~= parts);
    from_chars(&out)
}

/// The answer to a single file's upload: the one path it was stored at,
/// and the upload's size.
pub fn file_uploaded(destination: String, size: usize) -> (u: Uploaded)
    ensures
        u.message@ == "File uploaded successfully"@,
        u.paths@.len() == 1,
        u.paths@[0] == destination,
        u.size == size,
{
    Uploaded { message: upload_message(false, 0), paths: vec![destination], size }
}

/// The answer to an archive's upload: how many files were extracted, each
/// file's path relative to the store, and the upload's size.
pub fn zip_uploaded(files: &Vec<Vec<String>>, size: usize) -> (u: Uploaded)
    ensures
        u.message@ == "Zip file extracted "@ + crate::text::decimal(files.len() as nat) + " files successfully"@,
        u.paths.len() == files.len(),
        forall|i: int| 0 <= i < files.len() ==> (#[trigger] u.paths@[i])@ == join(names(files@[i]@), "/"@),
        u.size == size,
{
    let mut paths: Vec<String> = Vec::new();
    let mut i: usize = 0;
    while i < files.len()
        invariant
            i <= files.len(),
            paths.len() == i,
            forall|k: int| 0 <= k < i ==> (#[trigger] paths@[k])@ == join(names(files@[k]@), "/"@),
        decreases files.len() - i,
    {
        let p = components_path(&files[i]);
        paths.push(p);
        i = i + 1;
    }
    Uploaded { message: upload_message(true, files.len()), paths, size }
}

/// The message of a successful upload.
pub fn upload_message(zip: bool, count: usize) -> (s: String)
    ensures
        zip ==> s@ == "Zip file extracted "@ + crate::text::decimal(count as nat) + " files successfully"@,
        !zip ==> s@ == "File uploaded successfully"@,
{
    if !zip {
        return "File uploaded successfully".to_owned();
    }
    let mut out: Vec<char> = Vec::new();
    append_str(&mut out, "Zip file extracted ");
    crate::text::push_decimal(&mut out, count as u64);
    append_str(&mut out, " files successfully");
    from_chars(&out)
}

/// The body of a failed upload: `{"details":...,"error":...}`, the members
/// in the order `serde_json` writes them.
pub fn upload_error_body(error: &str, details: &str) -> (s: String)
    ensures
        s@ == "{\"details\":"@ + json_string_literal(details@) + ",\"error\":"@ + json_string_literal(error@) + "}"@,
{
    let mut out: Vec<char> = Vec::new();
    append_str(&mut out, "{\"details\":");
    let d = json_quote(details);
    append_str(&mut out, d.as_str());
    append_str(&mut out, ",\"error\":");
    let e = json_quote(error);
    append_str(&mut out, e.as_str());
    append_str(&mut out, "}");
    from_chars(&out)
}

/// The string elements of a list, in order; others are skipped.
pub open spec fn strings_of(vs: Seq<JsonValue>) -> Seq<Seq<char>>
    decreases vs.len(),
{
    if vs.len() == 0 {
        Seq::empty()
    } else {
        let pre = strings_of(vs.drop_last());
        match vs.last() {
            JsonValue::Str(s) => pre.push(s@),
            _ => pre,
        }
    }
}

/// The inputs of an embedding request: a string, or the strings of a list;
/// anything else is refused.
pub fn embedding_inputs(input: JsonValue) -> (r: Result<Vec<String>, String>)
    ensures
        match input {
            JsonValue::Str(s) => r matches Ok(v) && v@.map_values(|x: String| x@) == seq![s@],
            JsonValue::Array(vs) => r matches Ok(v) && v@.map_values(|x: String| x@) == strings_of(vs@),
            _ => r matches Err(m) && m@ == "Input must be string or array of strings"@,
        },
{
    match input {
        JsonValue::Str(s) => {
            let ghost sv = s@;
            let v = vec![s];
            assert(v@.map_values(|x: String| x@) =~= seq![sv]);
            Ok(v)
        },
        JsonValue::Array(vs) => {
            let mut out: Vec<String> = Vec::new();
            let mut i: usize = 0;
            while i < vs.len()
                invariant
                    i <= vs.len(),
                    out@.map_values(|x: String| x@) == strings_of(vs@.subrange(0, i as int)),
                decreases vs.len() - i,
            {
                assert(vs@.subrange(0, i + 1).drop_last() =~= vs@.subrange(0, i as int));
                match &vs[i] {
                    JsonValue::Str(s) => {
                        let ghost before = out@;
                        out.push(s.clone());
                        assert(out@.map_values(|x: String| x@) =~= before.map_values(|x: String| x@).push(s@));
                    },
                    _ => {},
                }
                i = i + 1;
            }
            assert(vs@.subrange(0, vs.len() as int) =~= vs@);
            Ok(out)
        },
        _ => Err("Input must be string or array of strings".to_owned()),
    }
}

/// The number of texts embedded at once.
pub const EMBED_CHUNK_SIZE: usize = 10;

/// The batches in order, put back together.
pub open spec fn flatten(bs: Seq<Vec<String>>) -> Seq<String>
    decreases bs.len(),
{
    if bs.len() == 0 {
        Seq::empty()
    } else {
        flatten(bs.drop_last()) + bs.last()@
    }
}

/// Splits texts into batches of ten, in order; the last batch holds the
/// rest.
pub fn text_chunks(texts: &Vec<String>) -> (r: Vec<Vec<String>>)
    ensures
        flatten(r@) == texts@,
        forall|i: int| 0 <= i < r.len() ==> 1 <= (#[trigger] r@[i]).len() <= 10,
        forall|i: int| 0 <= i < r.len() - 1 ==> (#[trigger] r@[i]).len() == 10,
{
    let mut out: Vec<Vec<String>> = Vec::new();
    let mut i: usize = 0;
    assert(flatten(out@) =~= texts@.subrange(0, 0));
    while i < texts.len()
        invariant
            i <= texts.len(),
            flatten(out@) == texts@.subrange(0, i as int),
            forall|k: int| 0 <= k < out.len() ==> 1 <= (#[trigger] out@[k]).len() <= 10,
            forall|k: int| 0 <= k < out.len() - 1 ==> (#[trigger] out@[k]).len() == 10,
            i < texts.len() && out.len() > 0 ==> out@[out.len() - 1].len() == 10,
        decreases texts.len() - i,
    {
        let end: usize = if texts.len() - i > EMBED_CHUNK_SIZE { i + EMBED_CHUNK_SIZE } else { texts.len() };
        let mut chunk: Vec<String> = Vec::new();
        let mut j: usize = i;
        while j < end
            invariant
                i <= j <= end,
                end <= texts.len(),
                chunk@ == texts@.subrange(i as int, j as int),
            decreases end - j,
        {
            chunk.push(texts[j].clone());
            assert(chunk@ =~= texts@.subrange(i as int, j + 1));
            j = j + 1;
        }
        let ghost before = out@;
        out.push(chunk);
        proof {
            assert(out@.drop_last() =~= before);
            assert(texts@.subrange(0, end as int) =~= texts@.subrange(0, i as int) + texts@.subrange(i as int, end as int));
        }
        i = end;
    }
    assert(texts@.subrange(0, texts.len() as int) =~= texts@);
    out
}

/// How an embedding request is carried out: texts in batches of ten, images
/// all at once.
#[derive(Debug)]
pub enum EmbedPlan {
    Texts(Vec<Vec<String>>),
    Images(Vec<String>),
}

/// Plans an embedding request from its model and inputs.
pub fn embed_plan(model: ModelEmbed, inputs: Vec<String>) -> (p: EmbedPlan)
    ensures
        model == ModelEmbed::NomicEmbedTextV15 ==> (p matches EmbedPlan::Texts(bs) && flatten(bs@) == inputs@
            && (forall|i: int| 0 <= i < bs.len() ==> 1 <= (#[trigger] bs@[i]).len() <= 10)
            && (forall|i: int| 0 <= i < bs.len() - 1 ==> (#[trigger] bs@[i]).len() == 10)),
        model == ModelEmbed::NomicEmbedVisionV15 ==> (p matches EmbedPlan::Images(v) && v@ == inputs@),
{
    match model {
        ModelEmbed::NomicEmbedTextV15 => EmbedPlan::Texts(text_chunks(&inputs)),
        ModelEmbed::NomicEmbedVisionV15 => EmbedPlan::Images(inputs),
    }
}

} // verus!
