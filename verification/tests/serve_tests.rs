use unity_web_server::serve::{
    directory_listing_html, file_reply, serve_step, DirEntryInfo, ServeAction, ServeEvent,
    ServeStage,
};

fn entry(name: &str, is_dir: bool) -> DirEntryInfo {
    DirEntryInfo { name: name.to_string(), is_dir }
}

#[test]
fn listing_of_the_build_root() {
    let html = directory_listing_html("", &vec![entry("Build", true), entry("index.html", false)]);
    assert_eq!(
        html,
        "<!DOCTYPE html><html><head><title>Directory Listing</title></head><body><h1>Directory Listing</h1><ul>\
         <li><a href=\"Build\">Build/</a></li><li><a href=\"index.html\">index.html</a></li></ul></body></html>"
    );
}

#[test]
fn listing_below_the_root_links_to_parent() {
    let html = directory_listing_html("TemplateData/", &vec![]);
    assert_eq!(
        html,
        "<!DOCTYPE html><html><head><title>Directory Listing</title></head><body><h1>Directory Listing</h1><ul>\
         <li><a href=\"../\">..</a></li></ul></body></html>"
    );
}

#[test]
fn compressed_file_reply() {
    let r = file_reply("game.wasm.br", vec![1, 2, 3]);
    assert_eq!(r.content_type, "application/wasm");
    assert_eq!(r.cache_control, Some("public, max-age=31536000"));
    assert_eq!(r.content_encoding, Some("br"));
    assert_eq!(r.body, vec![1, 2, 3]);
}

#[test]
fn plain_file_reply() {
    let r = file_reply("style.css", vec![]);
    assert_eq!(r.content_type, "text/css");
    assert_eq!(r.content_encoding, None);
}

#[test]
fn file_request() {
    let (s, a) = serve_step("game.data.gz", ServeStage::AwaitPathKind, ServeEvent::PathKind { is_dir: false });
    assert_eq!(s, ServeStage::AwaitFileRead);
    assert!(matches!(a, ServeAction::ReadFile));
    let (s, a) = serve_step("game.data.gz", s, ServeEvent::FileRead { contents: Some(vec![9]) });
    assert_eq!(s, ServeStage::Finished);
    match a {
        ServeAction::Respond(r) => {
            assert_eq!(r.content_type, "application/octet-stream");
            assert_eq!(r.content_encoding, Some("gzip"));
            assert_eq!(r.cache_control, Some("public, max-age=31536000"));
            assert_eq!(r.body, vec![9]);
        }
        _ => panic!("expected a reply"),
    }
}

#[test]
fn unreadable_file_is_not_found() {
    let (s, a) = serve_step("x.js", ServeStage::AwaitFileRead, ServeEvent::FileRead { contents: None });
    assert_eq!(s, ServeStage::Finished);
    assert!(matches!(a, ServeAction::NotFound));
}

#[test]
fn directory_with_index() {
    let (s, a) = serve_step("", ServeStage::AwaitPathKind, ServeEvent::PathKind { is_dir: true });
    assert_eq!(s, ServeStage::AwaitIndexCheck);
    assert!(matches!(a, ServeAction::CheckIndex));
    let (s, a) = serve_step("", s, ServeEvent::IndexPresence { exists: true });
    assert_eq!(s, ServeStage::AwaitIndexRead);
    assert!(matches!(a, ServeAction::ReadIndex));
    let (s, a) = serve_step("", s, ServeEvent::IndexRead { contents: Some(b"<html>".to_vec()) });
    assert_eq!(s, ServeStage::Finished);
    match a {
        ServeAction::Respond(r) => {
            assert_eq!(r.content_type, "text/html");
            assert_eq!(r.cache_control, None);
            assert_eq!(r.content_encoding, None);
            assert_eq!(r.body, b"<html>".to_vec());
        }
        _ => panic!("expected a reply"),
    }
}

#[test]
fn unreadable_index_is_not_found() {
    let (s, a) = serve_step("", ServeStage::AwaitIndexRead, ServeEvent::IndexRead { contents: None });
    assert_eq!(s, ServeStage::Finished);
    assert!(matches!(a, ServeAction::NotFound));
}

#[test]
fn directory_without_index_is_listed() {
    let (s, a) = serve_step("sub", ServeStage::AwaitIndexCheck, ServeEvent::IndexPresence { exists: false });
    assert_eq!(s, ServeStage::AwaitListing);
    assert!(matches!(a, ServeAction::ListDirectory));
    let (s, a) = serve_step("sub", s, ServeEvent::DirectoryRead { entries: Some(vec![entry("a.txt", false)]) });
    assert_eq!(s, ServeStage::Finished);
    match a {
        ServeAction::Respond(r) => {
            assert_eq!(r.content_type, "text/html");
            let body = String::from_utf8(r.body).unwrap();
            assert_eq!(body, directory_listing_html("sub", &vec![entry("a.txt", false)]));
            assert!(body.contains("<li><a href=\"../\">..</a></li><li><a href=\"a.txt\">a.txt</a></li>"));
        }
        _ => panic!("expected a reply"),
    }
}

#[test]
fn unreadable_directory_is_not_found() {
    let (s, a) = serve_step("sub", ServeStage::AwaitListing, ServeEvent::DirectoryRead { entries: None });
    assert_eq!(s, ServeStage::Finished);
    assert!(matches!(a, ServeAction::NotFound));
}
