//! MIME types and content encodings of the files in a Unity WebGL build.

use vstd::prelude::*;
use crate::text::{chars_end_with, has_suffix, lacks_char, lemma_not_suffix_at, lemma_suffix_after_dir, lemma_suffix_of_concat, text_chars};

verus! {

/// The MIME type served for a file path, decided by its suffix. The Unity
/// build files (`.wasm`, `.js`, `.data`, `.symbols.json`) keep their type
/// when compressed with Brotli (`.br`) or Gzip (`.gz`).
pub open spec fn content_type_of(path: Seq<char>) -> Seq<char> {
    if has_suffix(path, ".wasm"@) || has_suffix(path, ".wasm.br"@) || has_suffix(path, ".wasm.gz"@) {
        "application/wasm"@
    } else if has_suffix(path, ".js"@) || has_suffix(path, ".js.br"@) || has_suffix(path, ".js.gz"@) {
        "application/javascript"@
    } else if has_suffix(path, ".data"@) || has_suffix(path, ".data.br"@) || has_suffix(
        path,
        ".data.gz"@,
    ) {
        "application/octet-stream"@
    } else if has_suffix(path, ".symbols.json"@) || has_suffix(path, ".symbols.json.br"@)
        || has_suffix(path, ".symbols.json.gz"@) {
        "application/json"@
    } else if has_suffix(path, ".html"@) {
        "text/html"@
    } else if has_suffix(path, ".css"@) {
        "text/css"@
    } else if has_suffix(path, ".png"@) {
        "image/png"@
    } else if has_suffix(path, ".jpg"@) || has_suffix(path, ".jpeg"@) {
        "image/jpeg"@
    } else if has_suffix(path, ".ico"@) {
        "image/x-icon"@
    } else {
        "application/octet-stream"@
    }
}

/// The MIME type to serve for `file_path`.
pub fn get_content_type(file_path: &str) -> (t: &'static str)
    ensures
        t@ == content_type_of(file_path@),
{
    let p = text_chars(file_path);
    if chars_end_with(&p, ".wasm") || chars_end_with(&p, ".wasm.br") || chars_end_with(
        &p,
        ".wasm.gz",
    ) {
        "application/wasm"
    } else if chars_end_with(&p, ".js") || chars_end_with(&p, ".js.br") || chars_end_with(
        &p,
        ".js.gz",
    ) {
        "application/javascript"
    } else if chars_end_with(&p, ".data") || chars_end_with(&p, ".data.br") || chars_end_with(
        &p,
        ".data.gz",
    ) {
        "application/octet-stream"
    } else if chars_end_with(&p, ".symbols.json") || chars_end_with(&p, ".symbols.json.br")
        || chars_end_with(&p, ".symbols.json.gz") {
        "application/json"
    } else if chars_end_with(&p, ".html") {
        "text/html"
    } else if chars_end_with(&p, ".css") {
        "text/css"
    } else if chars_end_with(&p, ".png") {
        "image/png"
    } else if chars_end_with(&p, ".jpg") || chars_end_with(&p, ".jpeg") {
        "image/jpeg"
    } else if chars_end_with(&p, ".ico") {
        "image/x-icon"
    } else {
        "application/octet-stream"
    }
}

/// The `content-encoding` header value for a file path: `br` for Brotli
/// files, `gzip` for Gzip files, none otherwise.
pub open spec fn content_encoding_of(path: Seq<char>) -> Option<Seq<char>> {
    if has_suffix(path, ".br"@) {
        Some("br"@)
    } else if has_suffix(path, ".gz"@) {
        Some("gzip"@)
    } else {
        None
    }
}

/// The view of an optional text.
pub open spec fn opt_text(t: Option<&str>) -> Option<Seq<char>> {
    match t {
        Some(s) => Some(s@),
        None => None,
    }
}

/// The `content-encoding` header value to send with `file_path`, if any.
pub fn content_encoding(file_path: &str) -> (e: Option<&'static str>)
    ensures
        opt_text(e) == content_encoding_of(file_path@),
{
    let p = text_chars(file_path);
    if chars_end_with(&p, ".br") {
        Some("br")
    } else if chars_end_with(&p, ".gz") {
        Some("gzip")
    } else {
        None
    }
}

/// A Unity build file (`.wasm`, `.js`, `.data`, `.symbols.json`) is served
/// with the MIME type of its kind whatever its name, and keeps that type when
/// compressed with Brotli (`.br`) or Gzip (`.gz`).
pub proof fn lemma_unity_file_types(stem: Seq<char>)
    ensures
        content_type_of(stem + ".wasm"@) == "application/wasm"@,
        content_type_of(stem + ".wasm.br"@) == "application/wasm"@,
        content_type_of(stem + ".wasm.gz"@) == "application/wasm"@,
        content_type_of(stem + ".js"@) == "application/javascript"@,
        content_type_of(stem + ".js.br"@) == "application/javascript"@,
        content_type_of(stem + ".js.gz"@) == "application/javascript"@,
        content_type_of(stem + ".data"@) == "application/octet-stream"@,
        content_type_of(stem + ".data.br"@) == "application/octet-stream"@,
        content_type_of(stem + ".data.gz"@) == "application/octet-stream"@,
        content_type_of(stem + ".symbols.json"@) == "application/json"@,
        content_type_of(stem + ".symbols.json.br"@) == "application/json"@,
        content_type_of(stem + ".symbols.json.gz"@) == "application/json"@,
{
    reveal_strlit(".data");
    reveal_strlit(".data.br");
    reveal_strlit(".data.gz");
    reveal_strlit(".js");
    reveal_strlit(".js.br");
    reveal_strlit(".js.gz");
    reveal_strlit(".symbols.json");
    reveal_strlit(".symbols.json.br");
    reveal_strlit(".symbols.json.gz");
    reveal_strlit(".wasm");
    reveal_strlit(".wasm.br");
    reveal_strlit(".wasm.gz");
    lemma_suffix_of_concat(stem, ".wasm"@, ".wasm"@);
    lemma_suffix_of_concat(stem, ".wasm.br"@, ".wasm.br"@);
    lemma_suffix_of_concat(stem, ".wasm.gz"@, ".wasm.gz"@);
    lemma_suffix_of_concat(stem, ".js"@, ".js"@);
    lemma_suffix_of_concat(stem, ".js"@, ".wasm"@);
    lemma_not_suffix_at(".wasm"@, ".js"@, 2);
    lemma_suffix_of_concat(stem, ".js"@, ".wasm.br"@);
    lemma_not_suffix_at(".wasm.br"@, ".js"@, 2);
    lemma_suffix_of_concat(stem, ".js"@, ".wasm.gz"@);
    lemma_not_suffix_at(".wasm.gz"@, ".js"@, 2);
    lemma_suffix_of_concat(stem, ".js.br"@, ".js.br"@);
    lemma_suffix_of_concat(stem, ".js.br"@, ".wasm"@);
    lemma_not_suffix_at(".js.br"@, ".wasm"@, 4);
    lemma_suffix_of_concat(stem, ".js.br"@, ".wasm.br"@);
    lemma_not_suffix_at(".wasm.br"@, ".js.br"@, 2);
    lemma_suffix_of_concat(stem, ".js.br"@, ".wasm.gz"@);
    lemma_not_suffix_at(".wasm.gz"@, ".js.br"@, 5);
    lemma_suffix_of_concat(stem, ".js.gz"@, ".js.gz"@);
    lemma_suffix_of_concat(stem, ".js.gz"@, ".wasm"@);
    lemma_not_suffix_at(".js.gz"@, ".wasm"@, 4);
    lemma_suffix_of_concat(stem, ".js.gz"@, ".wasm.br"@);
    lemma_not_suffix_at(".wasm.br"@, ".js.gz"@, 5);
    lemma_suffix_of_concat(stem, ".js.gz"@, ".wasm.gz"@);
    lemma_not_suffix_at(".wasm.gz"@, ".js.gz"@, 2);
    lemma_suffix_of_concat(stem, ".data"@, ".data"@);
    lemma_suffix_of_concat(stem, ".data"@, ".wasm"@);
    lemma_not_suffix_at(".data"@, ".wasm"@, 4);
    lemma_suffix_of_concat(stem, ".data"@, ".wasm.br"@);
    lemma_not_suffix_at(".wasm.br"@, ".data"@, 4);
    lemma_suffix_of_concat(stem, ".data"@, ".wasm.gz"@);
    lemma_not_suffix_at(".wasm.gz"@, ".data"@, 4);
    lemma_suffix_of_concat(stem, ".data"@, ".js"@);
    lemma_not_suffix_at(".data"@, ".js"@, 2);
    lemma_suffix_of_concat(stem, ".data"@, ".js.br"@);
    lemma_not_suffix_at(".js.br"@, ".data"@, 4);
    lemma_suffix_of_concat(stem, ".data"@, ".js.gz"@);
    lemma_not_suffix_at(".js.gz"@, ".data"@, 4);
    lemma_suffix_of_concat(stem, ".data.br"@, ".data.br"@);
    lemma_suffix_of_concat(stem, ".data.br"@, ".wasm"@);
    lemma_not_suffix_at(".data.br"@, ".wasm"@, 4);
    lemma_suffix_of_concat(stem, ".data.br"@, ".wasm.br"@);
    lemma_not_suffix_at(".data.br"@, ".wasm.br"@, 4);
    lemma_suffix_of_concat(stem, ".data.br"@, ".wasm.gz"@);
    lemma_not_suffix_at(".data.br"@, ".wasm.gz"@, 7);
    lemma_suffix_of_concat(stem, ".data.br"@, ".js"@);
    lemma_not_suffix_at(".data.br"@, ".js"@, 2);
    lemma_suffix_of_concat(stem, ".data.br"@, ".js.br"@);
    lemma_not_suffix_at(".data.br"@, ".js.br"@, 2);
    lemma_suffix_of_concat(stem, ".data.br"@, ".js.gz"@);
    lemma_not_suffix_at(".data.br"@, ".js.gz"@, 5);
    lemma_suffix_of_concat(stem, ".data.gz"@, ".data.gz"@);
    lemma_suffix_of_concat(stem, ".data.gz"@, ".wasm"@);
    lemma_not_suffix_at(".data.gz"@, ".wasm"@, 4);
    lemma_suffix_of_concat(stem, ".data.gz"@, ".wasm.br"@);
    lemma_not_suffix_at(".data.gz"@, ".wasm.br"@, 7);
    lemma_suffix_of_concat(stem, ".data.gz"@, ".wasm.gz"@);
    lemma_not_suffix_at(".data.gz"@, ".wasm.gz"@, 4);
    lemma_suffix_of_concat(stem, ".data.gz"@, ".js"@);
    lemma_not_suffix_at(".data.gz"@, ".js"@, 2);
    lemma_suffix_of_concat(stem, ".data.gz"@, ".js.br"@);
    lemma_not_suffix_at(".data.gz"@, ".js.br"@, 5);
    lemma_suffix_of_concat(stem, ".data.gz"@, ".js.gz"@);
    lemma_not_suffix_at(".data.gz"@, ".js.gz"@, 2);
    lemma_suffix_of_concat(stem, ".symbols.json"@, ".symbols.json"@);
    lemma_suffix_of_concat(stem, ".symbols.json"@, ".wasm"@);
    lemma_not_suffix_at(".symbols.json"@, ".wasm"@, 4);
    lemma_suffix_of_concat(stem, ".symbols.json"@, ".wasm.br"@);
    lemma_not_suffix_at(".symbols.json"@, ".wasm.br"@, 7);
    lemma_suffix_of_concat(stem, ".symbols.json"@, ".wasm.gz"@);
    lemma_not_suffix_at(".symbols.json"@, ".wasm.gz"@, 7);
    lemma_suffix_of_concat(stem, ".symbols.json"@, ".js"@);
    lemma_not_suffix_at(".symbols.json"@, ".js"@, 2);
    lemma_suffix_of_concat(stem, ".symbols.json"@, ".js.br"@);
    lemma_not_suffix_at(".symbols.json"@, ".js.br"@, 5);
    lemma_suffix_of_concat(stem, ".symbols.json"@, ".js.gz"@);
    lemma_not_suffix_at(".symbols.json"@, ".js.gz"@, 5);
    lemma_suffix_of_concat(stem, ".symbols.json"@, ".data"@);
    lemma_not_suffix_at(".symbols.json"@, ".data"@, 4);
    lemma_suffix_of_concat(stem, ".symbols.json"@, ".data.br"@);
    lemma_not_suffix_at(".symbols.json"@, ".data.br"@, 7);
    lemma_suffix_of_concat(stem, ".symbols.json"@, ".data.gz"@);
    lemma_not_suffix_at(".symbols.json"@, ".data.gz"@, 7);
    lemma_suffix_of_concat(stem, ".symbols.json.br"@, ".symbols.json.br"@);
    lemma_suffix_of_concat(stem, ".symbols.json.br"@, ".wasm"@);
    lemma_not_suffix_at(".symbols.json.br"@, ".wasm"@, 4);
    lemma_suffix_of_concat(stem, ".symbols.json.br"@, ".wasm.br"@);
    lemma_not_suffix_at(".symbols.json.br"@, ".wasm.br"@, 4);
    lemma_suffix_of_concat(stem, ".symbols.json.br"@, ".wasm.gz"@);
    lemma_not_suffix_at(".symbols.json.br"@, ".wasm.gz"@, 7);
    lemma_suffix_of_concat(stem, ".symbols.json.br"@, ".js"@);
    lemma_not_suffix_at(".symbols.json.br"@, ".js"@, 2);
    lemma_suffix_of_concat(stem, ".symbols.json.br"@, ".js.br"@);
    lemma_not_suffix_at(".symbols.json.br"@, ".js.br"@, 2);
    lemma_suffix_of_concat(stem, ".symbols.json.br"@, ".js.gz"@);
    lemma_not_suffix_at(".symbols.json.br"@, ".js.gz"@, 5);
    lemma_suffix_of_concat(stem, ".symbols.json.br"@, ".data"@);
    lemma_not_suffix_at(".symbols.json.br"@, ".data"@, 4);
    lemma_suffix_of_concat(stem, ".symbols.json.br"@, ".data.br"@);
    lemma_not_suffix_at(".symbols.json.br"@, ".data.br"@, 4);
    lemma_suffix_of_concat(stem, ".symbols.json.br"@, ".data.gz"@);
    lemma_not_suffix_at(".symbols.json.br"@, ".data.gz"@, 7);
    lemma_suffix_of_concat(stem, ".symbols.json.gz"@, ".symbols.json.gz"@);
    lemma_suffix_of_concat(stem, ".symbols.json.gz"@, ".wasm"@);
    lemma_not_suffix_at(".symbols.json.gz"@, ".wasm"@, 4);
    lemma_suffix_of_concat(stem, ".symbols.json.gz"@, ".wasm.br"@);
    lemma_not_suffix_at(".symbols.json.gz"@, ".wasm.br"@, 7);
    lemma_suffix_of_concat(stem, ".symbols.json.gz"@, ".wasm.gz"@);
    lemma_not_suffix_at(".symbols.json.gz"@, ".wasm.gz"@, 4);
    lemma_suffix_of_concat(stem, ".symbols.json.gz"@, ".js"@);
    lemma_not_suffix_at(".symbols.json.gz"@, ".js"@, 2);
    lemma_suffix_of_concat(stem, ".symbols.json.gz"@, ".js.br"@);
    lemma_not_suffix_at(".symbols.json.gz"@, ".js.br"@, 5);
    lemma_suffix_of_concat(stem, ".symbols.json.gz"@, ".js.gz"@);
    lemma_not_suffix_at(".symbols.json.gz"@, ".js.gz"@, 2);
    lemma_suffix_of_concat(stem, ".symbols.json.gz"@, ".data"@);
    lemma_not_suffix_at(".symbols.json.gz"@, ".data"@, 4);
    lemma_suffix_of_concat(stem, ".symbols.json.gz"@, ".data.br"@);
    lemma_not_suffix_at(".symbols.json.gz"@, ".data.br"@, 7);
    lemma_suffix_of_concat(stem, ".symbols.json.gz"@, ".data.gz"@);
    lemma_not_suffix_at(".symbols.json.gz"@, ".data.gz"@, 4);
}

/// Brotli files are sent with encoding `br` and Gzip files with `gzip`,
/// whatever their name.
pub proof fn lemma_compressed_file_encoding(stem: Seq<char>)
    ensures
        content_encoding_of(stem + ".br"@) == Some("br"@),
        content_encoding_of(stem + ".gz"@) == Some("gzip"@),
{
    reveal_strlit(".br");
    reveal_strlit(".gz");
    lemma_suffix_of_concat(stem, ".br"@, ".br"@);
    lemma_suffix_of_concat(stem, ".gz"@, ".gz"@);
    lemma_suffix_of_concat(stem, ".gz"@, ".br"@);
    lemma_not_suffix_at(".gz"@, ".br"@, 2);
}

/// The directories a path goes through do not change what it is served as:
/// a file `dir/name` gets the MIME type and the encoding of `name`, since no
/// suffix that decides them holds a `/`.
pub proof fn lemma_directory_keeps_type(dir: Seq<char>, name: Seq<char>)
    ensures
        content_type_of(dir + "/"@ + name) == content_type_of(name),
        content_encoding_of(dir + "/"@ + name) == content_encoding_of(name),
{
    assert(lacks_char(".wasm"@, '/')) by {
        reveal_strlit(".wasm");
        reveal_with_fuel(lacks_char, 6);
    }
    lemma_suffix_after_dir(dir, name, ".wasm"@);
    assert(lacks_char(".wasm.br"@, '/')) by {
        reveal_strlit(".wasm.br");
        reveal_with_fuel(lacks_char, 9);
    }
    lemma_suffix_after_dir(dir, name, ".wasm.br"@);
    assert(lacks_char(".wasm.gz"@, '/')) by {
        reveal_strlit(".wasm.gz");
        reveal_with_fuel(lacks_char, 9);
    }
    lemma_suffix_after_dir(dir, name, ".wasm.gz"@);
    assert(lacks_char(".js"@, '/')) by {
        reveal_strlit(".js");
        reveal_with_fuel(lacks_char, 4);
    }
    lemma_suffix_after_dir(dir, name, ".js"@);
    assert(lacks_char(".js.br"@, '/')) by {
        reveal_strlit(".js.br");
        reveal_with_fuel(lacks_char, 7);
    }
    lemma_suffix_after_dir(dir, name, ".js.br"@);
    assert(lacks_char(".js.gz"@, '/')) by {
        reveal_strlit(".js.gz");
        reveal_with_fuel(lacks_char, 7);
    }
    lemma_suffix_after_dir(dir, name, ".js.gz"@);
    assert(lacks_char(".data"@, '/')) by {
        reveal_strlit(".data");
        reveal_with_fuel(lacks_char, 6);
    }
    lemma_suffix_after_dir(dir, name, ".data"@);
    assert(lacks_char(".data.br"@, '/')) by {
        reveal_strlit(".data.br");
        reveal_with_fuel(lacks_char, 9);
    }
    lemma_suffix_after_dir(dir, name, ".data.br"@);
    assert(lacks_char(".data.gz"@, '/')) by {
        reveal_strlit(".data.gz");
        reveal_with_fuel(lacks_char, 9);
    }
    lemma_suffix_after_dir(dir, name, ".data.gz"@);
    assert(lacks_char(".symbols.json"@, '/')) by {
        reveal_strlit(".symbols.json");
        reveal_with_fuel(lacks_char, 14);
    }
    lemma_suffix_after_dir(dir, name, ".symbols.json"@);
    assert(lacks_char(".symbols.json.br"@, '/')) by {
        reveal_strlit(".symbols.json.br");
        reveal_with_fuel(lacks_char, 17);
    }
    lemma_suffix_after_dir(dir, name, ".symbols.json.br"@);
    assert(lacks_char(".symbols.json.gz"@, '/')) by {
        reveal_strlit(".symbols.json.gz");
        reveal_with_fuel(lacks_char, 17);
    }
    lemma_suffix_after_dir(dir, name, ".symbols.json.gz"@);
    assert(lacks_char(".html"@, '/')) by {
        reveal_strlit(".html");
        reveal_with_fuel(lacks_char, 6);
    }
    lemma_suffix_after_dir(dir, name, ".html"@);
    assert(lacks_char(".css"@, '/')) by {
        reveal_strlit(".css");
        reveal_with_fuel(lacks_char, 5);
    }
    lemma_suffix_after_dir(dir, name, ".css"@);
    assert(lacks_char(".png"@, '/')) by {
        reveal_strlit(".png");
        reveal_with_fuel(lacks_char, 5);
    }
    lemma_suffix_after_dir(dir, name, ".png"@);
    assert(lacks_char(".jpg"@, '/')) by {
        reveal_strlit(".jpg");
        reveal_with_fuel(lacks_char, 5);
    }
    lemma_suffix_after_dir(dir, name, ".jpg"@);
    assert(lacks_char(".jpeg"@, '/')) by {
        reveal_strlit(".jpeg");
        reveal_with_fuel(lacks_char, 6);
    }
    lemma_suffix_after_dir(dir, name, ".jpeg"@);
    assert(lacks_char(".ico"@, '/')) by {
        reveal_strlit(".ico");
        reveal_with_fuel(lacks_char, 5);
    }
    lemma_suffix_after_dir(dir, name, ".ico"@);
    assert(lacks_char(".br"@, '/')) by {
        reveal_strlit(".br");
        reveal_with_fuel(lacks_char, 4);
    }
    lemma_suffix_after_dir(dir, name, ".br"@);
    assert(lacks_char(".gz"@, '/')) by {
        reveal_strlit(".gz");
        reveal_with_fuel(lacks_char, 4);
    }
    lemma_suffix_after_dir(dir, name, ".gz"@);
}

/// Only Brotli and Gzip files get a `content-encoding`: `br` for names
/// ending in `.br`, `gzip` for names ending in `.gz`, and none for any other
/// name, such as an uncompressed build file.
pub proof fn lemma_encoding_only_for_compressed(path: Seq<char>, stem: Seq<char>)
    ensures
        content_encoding_of(path) is Some <==> (has_suffix(path, ".br"@) || has_suffix(path, ".gz"@)),
        has_suffix(path, ".br"@) ==> content_encoding_of(path) == Some("br"@),
        has_suffix(path, ".gz"@) ==> content_encoding_of(path) == Some("gzip"@),
        content_encoding_of(stem + ".wasm"@) is None,
        content_encoding_of(stem + ".js"@) is None,
        content_encoding_of(stem + ".data"@) is None,
        content_encoding_of(stem + ".symbols.json"@) is None,
{
    reveal_strlit(".br");
    reveal_strlit(".gz");
    reveal_strlit(".wasm");
    reveal_strlit(".js");
    reveal_strlit(".data");
    reveal_strlit(".symbols.json");
    if has_suffix(path, ".br"@) && has_suffix(path, ".gz"@) {
        assert(path.subrange(path.len() - 3, path.len() as int)[1] == ".br"@[1]);
        assert(path.subrange(path.len() - 3, path.len() as int)[1] == ".gz"@[1]);
    }
    lemma_suffix_of_concat(stem, ".wasm"@, ".br"@);
    lemma_not_suffix_at(".wasm"@, ".br"@, 2);
    lemma_suffix_of_concat(stem, ".wasm"@, ".gz"@);
    lemma_not_suffix_at(".wasm"@, ".gz"@, 2);
    lemma_suffix_of_concat(stem, ".js"@, ".br"@);
    lemma_not_suffix_at(".js"@, ".br"@, 2);
    lemma_suffix_of_concat(stem, ".js"@, ".gz"@);
    lemma_not_suffix_at(".js"@, ".gz"@, 2);
    lemma_suffix_of_concat(stem, ".data"@, ".br"@);
    lemma_not_suffix_at(".data"@, ".br"@, 2);
    lemma_suffix_of_concat(stem, ".data"@, ".gz"@);
    lemma_not_suffix_at(".data"@, ".gz"@, 2);
    lemma_suffix_of_concat(stem, ".symbols.json"@, ".br"@);
    lemma_not_suffix_at(".symbols.json"@, ".br"@, 2);
    lemma_suffix_of_concat(stem, ".symbols.json"@, ".gz"@);
    lemma_not_suffix_at(".symbols.json"@, ".gz"@, 2);
}

} // verus!
