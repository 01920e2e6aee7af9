//! Serving the files of the build directory: the decisions taken for one
//! request.
//!
//! Serving a request alternates file-system work (is the path a directory,
//! is there an `index.html`, read a file, list a directory) with decisions.
//! `serve_step` takes the decisions: from the stage a request is in and the
//! answer to the last piece of work, it gives the next stage and what to do
//! next, up to the reply.

use vstd::prelude::*;
use vstd::string::StrSliceExecFns;
use vstd::utf8::encode_utf8;
use crate::content_type::{content_encoding, content_encoding_of, content_type_of, get_content_type, opt_text};

verus! {

/// One entry of a directory, as the listing shows it.
pub struct DirEntryInfo {
    /// The entry's file name.
    pub name: String,
    /// Whether the entry is a directory.
    pub is_dir: bool,
}

/// The name and kind of each entry.
pub open spec fn entries_view(entries: Seq<DirEntryInfo>) -> Seq<(Seq<char>, bool)> {
    entries.map_values(|e: DirEntryInfo| (e.name@, e.is_dir))
}

/// The start of a directory listing page.
pub const LISTING_HEAD: &'static str = "<!DOCTYPE html><html><head><title>Directory Listing</title></head><body><h1>Directory Listing</h1><ul>";

/// The link to the parent directory, shown below the build root.
pub const PARENT_LINK: &'static str = "<li><a href=\"../\">..</a></li>";

/// The end of a directory listing page.
pub const LISTING_TAIL: &'static str = "</ul></body></html>";

/// The list item of one entry: a link to the entry by its name, shown with
/// a trailing `/` where it is a directory.
pub open spec fn entry_item(name: Seq<char>, is_dir: bool) -> Seq<char> {
    let shown = if is_dir { name + "/"@ } else { name };
    "<li><a href=\""@ + name + "\">"@ + shown + "</a></li>"@
}

/// The list items of the entries, in the order given.
pub open spec fn entry_items(entries: Seq<(Seq<char>, bool)>) -> Seq<char>
    decreases entries.len(),
{
    if entries.len() == 0 {
        Seq::empty()
    } else {
        entry_items(entries.drop_last()) + entry_item(entries.last().0, entries.last().1)
    }
}

/// The listing page of a directory reached by the request path `file_path`:
/// a parent link unless the path is empty, then one item per entry.
pub open spec fn listing_text(file_path: Seq<char>, entries: Seq<(Seq<char>, bool)>) -> Seq<char> {
    LISTING_HEAD@ + (if file_path.len() > 0 { PARENT_LINK@ } else { Seq::empty() }) + entry_items(
        entries,
    ) + LISTING_TAIL@
}

/// Renders the listing page of a directory reached by `file_path`.
pub fn directory_listing_html(file_path: &str, entries: &Vec<DirEntryInfo>) -> (html: String)
    ensures
        html@ == listing_text(file_path@, entries_view(entries@)),
{
    let mut html = String::from_str(LISTING_HEAD);
    if !file_path.is_empty() {
        html.append(PARENT_LINK);
    }
    let ghost head = html@;
    let mut i: usize = 0;
    while i < entries.len()
        invariant
            i <= entries@.len(),
            head == LISTING_HEAD@ + (if file_path@.len() > 0 { PARENT_LINK@ } else { Seq::empty() }),
            html@ == head + entry_items(entries_view(entries@).take(i as int)),
        decreases entries@.len() - i,
    {
        let e = &entries[i];
        html.append("<li><a href=\"");
        html.append(e.name.as_str());
        html.append("\">");
        html.append(e.name.as_str());
        if e.is_dir {
            html.append("/");
        }
        html.append("</a></li>");
        proof {
            let v = entries_view(entries@);
            assert(v.take(i + 1).drop_last() =~= v.take(i as int));
            assert(v.take(i + 1).last() == (e.name@, e.is_dir));
        }
        i = i + 1;
    }
    assert(entries_view(entries@).take(entries@.len() as int) =~= entries_view(entries@));
    html.append(LISTING_TAIL);
    html
}

/// The listing of a directory without entries: the page frame, with the
/// link to the parent directory exactly when the request path is not empty.
pub proof fn lemma_empty_listing(file_path: Seq<char>)
    ensures
        listing_text(file_path, Seq::empty())
            == "<!DOCTYPE html><html><head><title>Directory Listing</title></head><body><h1>Directory Listing</h1><ul>"@
            + (if file_path.len() > 0 { "<li><a href=\"../\">..</a></li>"@ } else { Seq::empty() })
            + "</ul></body></html>"@,
{
    assert(entry_items(Seq::<(Seq<char>, bool)>::empty()) =~= Seq::<char>::empty());
    assert(listing_text(file_path, Seq::empty()) =~= LISTING_HEAD@ + (if file_path.len() > 0 {
        PARENT_LINK@
    } else {
        Seq::empty()
    }) + LISTING_TAIL@);
}

/// One more entry adds one list item at the end of the list: a link whose
/// target and text are the entry's own name, the text ending in `/` for a
/// directory. Nothing of the request path goes into it.
pub proof fn lemma_listing_adds_item(
    file_path: Seq<char>,
    entries: Seq<(Seq<char>, bool)>,
    name: Seq<char>,
    is_dir: bool,
)
    ensures
        ({
            let before = listing_text(file_path, entries);
            let tail = "</ul></body></html>"@;
            &&& before.len() >= tail.len()
            &&& listing_text(file_path, entries.push((name, is_dir))) == before.take(
                before.len() - tail.len(),
            ) + ("<li><a href=\""@ + name + "\">"@ + name + (if is_dir {
                "/"@
            } else {
                Seq::empty()
            }) + "</a></li>"@) + tail
        }),
{
    let head = LISTING_HEAD@ + (if file_path.len() > 0 { PARENT_LINK@ } else { Seq::empty() });
    let more = entries.push((name, is_dir));
    assert(more.drop_last() =~= entries);
    assert(entry_items(more) == entry_items(entries) + entry_item(name, is_dir));
    let before = listing_text(file_path, entries);
    assert(before.take(before.len() - LISTING_TAIL@.len()) =~= head + entry_items(entries));
    assert(entry_item(name, is_dir) =~= "<li><a href=\""@ + name + "\">"@ + name + (if is_dir {
        "/"@
    } else {
        Seq::empty()
    }) + "</a></li>"@);
    assert(listing_text(file_path, more) =~= before.take(before.len() - LISTING_TAIL@.len())
        + entry_item(name, is_dir) + LISTING_TAIL@);
}

/// Below the build root the listing does not depend on the request path:
/// any two non-empty paths give the same page for the same entries.
pub proof fn lemma_listing_ignores_request_path(
    path_a: Seq<char>,
    path_b: Seq<char>,
    entries: Seq<(Seq<char>, bool)>,
)
    requires
        path_a.len() > 0,
        path_b.len() > 0,
    ensures
        listing_text(path_a, entries) == listing_text(path_b, entries),
{
}

/// The `cache-control` header sent with build files.
pub const BUILD_FILE_CACHE_CONTROL: &'static str = "public, max-age=31536000";

/// A successful reply.
pub struct Reply {
    /// The `content-type` header.
    pub content_type: &'static str,
    /// The `cache-control` header, if one is sent.
    pub cache_control: Option<&'static str>,
    /// The `content-encoding` header, if one is sent.
    pub content_encoding: Option<&'static str>,
    /// The body.
    pub body: Vec<u8>,
}

/// The reply that carries an HTML page with the bytes `body`.
pub open spec fn is_page_reply(r: Reply, body: Seq<u8>) -> bool {
    &&& r.content_type@ == "text/html"@
    &&& r.cache_control is None
    &&& r.content_encoding is None
    &&& r.body@ == body
}

/// The reply that carries the build file `file_path` with the bytes `body`:
/// its MIME type, a year of caching, and its encoding where compressed.
pub open spec fn is_file_reply(r: Reply, file_path: Seq<char>, body: Seq<u8>) -> bool {
    &&& r.content_type@ == content_type_of(file_path)
    &&& opt_text(r.cache_control) == Some(BUILD_FILE_CACHE_CONTROL@)
    &&& opt_text(r.content_encoding) == content_encoding_of(file_path)
    &&& r.body@ == body
}

/// The file `file_path` served with the bytes `body`.
pub fn file_reply(file_path: &str, body: Vec<u8>) -> (r: Reply)
    ensures
        is_file_reply(r, file_path@, body@),
{
    Reply {
        content_type: get_content_type(file_path),
        cache_control: Some(BUILD_FILE_CACHE_CONTROL),
        content_encoding: content_encoding(file_path),
        body,
    }
}

/// Where a request stands.
#[derive(Clone, Copy, Debug, PartialEq, Eq, Structural)]
pub enum ServeStage {
    /// Waiting to learn whether the resolved path is a directory.
    AwaitPathKind,
    /// Waiting to learn whether the directory holds an `index.html`.
    AwaitIndexCheck,
    /// Waiting for the contents of the directory's `index.html`.
    AwaitIndexRead,
    /// Waiting for the entries of the directory.
    AwaitListing,
    /// Waiting for the contents of the file.
    AwaitFileRead,
    /// Answered.
    Finished,
}

/// The answer to the last piece of work asked for.
pub enum ServeEvent {
    /// Whether the resolved path is a directory.
    PathKind { is_dir: bool },
    /// Whether the directory holds an `index.html`.
    IndexPresence { exists: bool },
    /// The contents of the `index.html`, or `None` where reading failed.
    IndexRead { contents: Option<Vec<u8>> },
    /// The readable entries of the directory, or `None` where it could not
    /// be read.
    DirectoryRead { entries: Option<Vec<DirEntryInfo>> },
    /// The contents of the file, or `None` where reading failed.
    FileRead { contents: Option<Vec<u8>> },
}

/// What to do next.
pub enum ServeAction {
    /// Find out whether the directory holds an `index.html`.
    CheckIndex,
    /// Read the directory's `index.html`.
    ReadIndex,
    /// Read the entries of the directory.
    ListDirectory,
    /// Read the file.
    ReadFile,
    /// Answer with this reply.
    Respond(Reply),
    /// Answer that nothing was found.
    NotFound,
}

/// The event that answers the work a stage waits for.
pub open spec fn event_expected(stage: ServeStage, event: ServeEvent) -> bool {
    match stage {
        ServeStage::AwaitPathKind => event is PathKind,
        ServeStage::AwaitIndexCheck => event is IndexPresence,
        ServeStage::AwaitIndexRead => event is IndexRead,
        ServeStage::AwaitListing => event is DirectoryRead,
        ServeStage::AwaitFileRead => event is FileRead,
        ServeStage::Finished => false,
    }
}

/// How many more answers a stage can wait for at most.
pub open spec fn stage_rank(stage: ServeStage) -> int {
    match stage {
        ServeStage::AwaitPathKind => 3,
        ServeStage::AwaitIndexCheck => 2,
        ServeStage::AwaitIndexRead => 1,
        ServeStage::AwaitListing => 1,
        ServeStage::AwaitFileRead => 1,
        ServeStage::Finished => 0,
    }
}

/// The stage that waits for the answer to `action`.
pub open spec fn stage_after(action: ServeAction) -> ServeStage {
    match action {
        ServeAction::CheckIndex => ServeStage::AwaitIndexCheck,
        ServeAction::ReadIndex => ServeStage::AwaitIndexRead,
        ServeAction::ListDirectory => ServeStage::AwaitListing,
        ServeAction::ReadFile => ServeStage::AwaitFileRead,
        ServeAction::Respond(_) => ServeStage::Finished,
        ServeAction::NotFound => ServeStage::Finished,
    }
}

/// What one step decides, for the request path `file_path`.
pub open spec fn step_decides(
    file_path: Seq<char>,
    stage: ServeStage,
    event: ServeEvent,
    action: ServeAction,
) -> bool {
    match event {
        ServeEvent::PathKind { is_dir } => if is_dir {
            action is CheckIndex
        } else {
            action is ReadFile
        },
        ServeEvent::IndexPresence { exists } => if exists {
            action is ReadIndex
        } else {
            action is ListDirectory
        },
        ServeEvent::IndexRead { contents } => match contents {
            Some(c) => action matches ServeAction::Respond(r) && is_page_reply(r, c@),
            None => action is NotFound,
        },
        ServeEvent::DirectoryRead { entries } => match entries {
            Some(es) => action matches ServeAction::Respond(r) && is_page_reply(
                r,
                encode_utf8(listing_text(file_path, entries_view(es@))),
            ),
            None => action is NotFound,
        },
        ServeEvent::FileRead { contents } => match contents {
            Some(c) => action matches ServeAction::Respond(r) && is_file_reply(r, file_path, c@),
            None => action is NotFound,
        },
    }
}

/// One decision in serving the request path `file_path`: a directory is
/// answered with its `index.html` where it has one and with a listing of its
/// entries otherwise; a file is answered with its contents and the headers
/// of its kind; any read that fails is answered "not found".
pub fn serve_step(file_path: &str, stage: ServeStage, event: ServeEvent) -> (next: (
    ServeStage,
    ServeAction,
))
    requires
        event_expected(stage, event),
    ensures
        step_decides(file_path@, stage, event, next.1),
        next.0 == stage_after(next.1),
        stage_rank(next.0) < stage_rank(stage),
{
    let action = match event {
        ServeEvent::PathKind { is_dir } => if is_dir {
            ServeAction::CheckIndex
        } else {
            ServeAction::ReadFile
        },
        ServeEvent::IndexPresence { exists } => if exists {
            ServeAction::ReadIndex
        } else {
            ServeAction::ListDirectory
        },
        ServeEvent::IndexRead { contents } => match contents {
            Some(c) => ServeAction::Respond(
                Reply { content_type: "text/html", cache_control: None, content_encoding: None, body: c },
            ),
            None => ServeAction::NotFound,
        },
        ServeEvent::DirectoryRead { entries } => match entries {
            Some(es) => {
                let html = directory_listing_html(file_path, &es);
                ServeAction::Respond(
                    Reply {
                        content_type: "text/html",
                        cache_control: None,
                        content_encoding: None,
                        body: html.as_str().as_bytes_vec(),
                    },
                )
            },
            None => ServeAction::NotFound,
        },
        ServeEvent::FileRead { contents } => match contents {
            Some(c) => ServeAction::Respond(file_reply(file_path, c)),
            None => ServeAction::NotFound,
        },
    };
    let next_stage = match &action {
        ServeAction::CheckIndex => ServeStage::AwaitIndexCheck,
        ServeAction::ReadIndex => ServeStage::AwaitIndexRead,
        ServeAction::ListDirectory => ServeStage::AwaitListing,
        ServeAction::ReadFile => ServeStage::AwaitFileRead,
        ServeAction::Respond(_) => ServeStage::Finished,
        ServeAction::NotFound => ServeStage::Finished,
    };
    (next_stage, action)
}

} // verus!
